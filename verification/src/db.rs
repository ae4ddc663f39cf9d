//! The layout of the key-value store that persists the state maps: each
//! map `m` keeps its clock under `m/clock`, each entry `k` under
//! `m/entries/k`, and its deferred operations under `m/deferred/i`.

use vstd::prelude::*;
use crate::text::{concat, decimal, seq_starts_with, starts_with as str_starts_with, suffix_from, u64_to_decimal};

verus! {

/// Whether the byte string `bytes` starts with `prefix`.
pub fn starts_with(bytes: &[u8], prefix: &[u8]) -> (r: bool)
    ensures
        r == (bytes@.len() >= prefix@.len() && bytes@.subrange(0, prefix@.len() as int) == prefix@),
{
    if bytes.len() < prefix.len() {
        return false;
    }
    let mut i: usize = 0;
    while i < prefix.len()
        invariant
            i <= prefix@.len(),
            prefix@.len() <= bytes@.len(),
            forall|j: int| 0 <= j < i ==> bytes@[j] == prefix@[j],
        decreases prefix@.len() - i,
    {
        if bytes[i] != prefix[i] {
            proof {
                assert(bytes@.subrange(0, prefix@.len() as int)[i as int] != prefix@[i as int]);
            }
            return false;
        }
        i += 1;
    }
    proof {
        assert(bytes@.subrange(0, prefix@.len() as int) =~= prefix@);
    }
    true
}

/// The key of a map's clock.
pub open spec fn spec_clock_key(map_name: Seq<char>) -> Seq<char> {
    map_name + "/clock"@
}

/// The prefix of the keys of a map's entries.
pub open spec fn spec_entry_prefix(map_name: Seq<char>) -> Seq<char> {
    map_name + "/entries/"@
}

/// The prefix of the keys of a map's deferred operations.
pub open spec fn spec_deferred_prefix(map_name: Seq<char>) -> Seq<char> {
    map_name + "/deferred/"@
}

/// The key of a map's clock.
pub fn clock_key(map_name: &str) -> (r: String)
    ensures
        r@ == spec_clock_key(map_name@),
{
    concat(map_name, "/clock")
}

/// The prefix of the keys of a map's entries.
pub fn entry_prefix(map_name: &str) -> (r: String)
    ensures
        r@ == spec_entry_prefix(map_name@),
{
    concat(map_name, "/entries/")
}

/// The key of the entry `key` of a map.
pub fn entry_key(map_name: &str, key: &str) -> (r: String)
    ensures
        r@ == spec_entry_prefix(map_name@) + key@,
{
    let p = entry_prefix(map_name);
    concat(p.as_str(), key)
}

/// The prefix of the keys of a map's deferred operations.
pub fn deferred_prefix(map_name: &str) -> (r: String)
    ensures
        r@ == spec_deferred_prefix(map_name@),
{
    concat(map_name, "/deferred/")
}

/// The key of the deferred operation at position `index` of a map.
pub fn deferred_key(map_name: &str, index: u64) -> (r: String)
    ensures
        r@ == spec_deferred_prefix(map_name@) + decimal(index as nat),
{
    let p = deferred_prefix(map_name);
    let d = u64_to_decimal(index);
    concat(p.as_str(), d.as_str())
}

/// The entry that a stored key names in a map: what follows the map's
/// entry prefix, if the key has it.
pub open spec fn spec_entry_name(stored: Seq<char>, map_name: Seq<char>) -> Option<Seq<char>> {
    let p = spec_entry_prefix(map_name);
    if seq_starts_with(stored, p) { Some(stored.subrange(p.len() as int, stored.len() as int)) } else { None }
}

/// The entry that a stored key names in a map, if it is one of the map's
/// entry keys.
pub fn entry_name(stored: &str, map_name: &str) -> (r: Option<String>)
    ensures
        crate::clock::opt_string_view(r) == spec_entry_name(stored@, map_name@),
{
    let p = entry_prefix(map_name);
    if str_starts_with(stored, p.as_str()) {
        let rest = suffix_from(stored, p.unicode_len());
        Some(crate::text::owned(rest))
    } else {
        None
    }
}

/// Whether a stored key is one of a map's deferred operation keys.
pub fn is_deferred_key(stored: &str, map_name: &str) -> (r: bool)
    ensures
        r == seq_starts_with(stored@, spec_deferred_prefix(map_name@)),
{
    let p = deferred_prefix(map_name);
    str_starts_with(stored, p.as_str())
}

/// Reading back the key of an entry gives the entry.
pub proof fn lemma_entry_key_roundtrip(map_name: Seq<char>, key: Seq<char>)
    ensures
        spec_entry_name(spec_entry_prefix(map_name) + key, map_name) == Some(key),
{
    let p = spec_entry_prefix(map_name);
    assert((p + key).subrange(0, p.len() as int) =~= p);
    assert((p + key).subrange(p.len() as int, (p + key).len() as int) =~= key);
}

/// A map's clock key and deferred keys are no entry keys of it, and its
/// entry keys are no deferred keys.
pub proof fn lemma_keys_disjoint(map_name: Seq<char>, key: Seq<char>, index: nat)
    ensures
        spec_entry_name(spec_clock_key(map_name), map_name) is None,
        spec_entry_name(spec_deferred_prefix(map_name) + decimal(index), map_name) is None,
        !seq_starts_with(spec_entry_prefix(map_name) + key, spec_deferred_prefix(map_name)),
{
    let n = map_name.len() as int;
    let e = spec_entry_prefix(map_name);
    let c = spec_clock_key(map_name);
    let d = spec_deferred_prefix(map_name) + decimal(index);
    reveal_strlit("/entries/");
    reveal_strlit("/clock");
    reveal_strlit("/deferred/");
    if seq_starts_with(c, e) {
        assert(c.len() == n + 6);
        assert(e.len() == n + 9);
    }
    if seq_starts_with(d, e) {
        assert(d.subrange(0, e.len() as int)[n + 1] == d[n + 1]);
        assert(d[n + 1] == 'd');
        assert(e[n + 1] == 'e');
    }
    let k = e + key;
    let dp = spec_deferred_prefix(map_name);
    if seq_starts_with(k, dp) {
        assert(k.subrange(0, dp.len() as int)[n + 1] == k[n + 1]);
        assert(k[n + 1] == 'e');
        assert(dp[n + 1] == 'd');
    }
}

} // verus!
