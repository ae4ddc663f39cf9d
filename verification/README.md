# form_state

The core logic of the Formation state service, written in Verus and proved
against its contracts: roles, permissions and project resource access;
API keys with their scopes, rate limits and audit trail; accounts with
their ownership, authorizations, credits and hiring rules; subscriptions,
quotas and usage tracking; ECDSA request signatures; and the decisions
behind the HTTP handlers.

Layout:

- `src/` — the verified library. `text`, `kv`, `ordered` and `clock` are the
  building blocks (strings, small maps, sorted string maps and sets, the
  calendar); `auth`, `api_keys`, `accounts`, `billing`, `api`, `db`,
  `helpers` and `agent` hold the service's rules.
  `stores` holds the account and agent stores as the handlers see them
  (each ID mapped to its latest value) and the handlers' steps over them.
  The replication of these stores between nodes (a CRDT register map) and
  the data store that persists and gossips it are not part of the library:
  the register type they use (`BFTReg`) is not in the `crdts` release this
  project builds against, and the CRDT map would need trait impls on the
  library's own account type that only `crdts` or the library could write.
- Maps keyed by text (`ordered::StrMap`, `kv::StringMap`, and the grant
  list of `auth::project_access::ProjectAccessStore`) are the library's own,
  kept in a `Vec` sorted or searched by key with their contents stated as a
  `Map` or `Seq`. The standard `HashMap` and `BTreeMap` keyed by `String`
  compile under Verus, but nothing is proved of their contents then (only
  integer keys get a usable specification), and the order in which a
  `HashMap` is walked is not a function of its contents, so no listing
  built from one could have an exact contract.
- `tests/` — tests of the library.
- `app/` — the code around it that Verus does not check: configuration from
  the environment, HTTP responses, locks around shared state, the JSON forms
  of the library's types, key fetching, and the billing figures that are
  configured as fractional numbers.
