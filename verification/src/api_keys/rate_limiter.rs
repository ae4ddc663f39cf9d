//! Rate limits for API keys: per-tier limits, a three-window counter per
//! key (minute, hour, day), and the response headers that report them.

use vstd::prelude::*;
use std::time::Instant;
use crate::billing::SubscriptionTier;
use crate::clock::{instant_now, nanos_between};
use crate::kv::StringMap;
use crate::ordered::{StrMap, views};
use crate::text::{owned, u64_to_decimal, decimal};

verus! {

/// Rate limit configuration for a subscription tier.
#[derive(Debug, Clone, Copy, PartialEq, Eq, Structural)]
pub struct RateLimitConfig {
    /// Requests per minute allowed
    pub requests_per_minute: u32,
    /// Requests per hour allowed
    pub requests_per_hour: u32,
    /// Requests per day allowed
    pub requests_per_day: u32,
}

/// The limits of each subscription tier.
pub open spec fn spec_tier_limits(tier: SubscriptionTier) -> RateLimitConfig {
    match tier {
        SubscriptionTier::Free => RateLimitConfig { requests_per_minute: 30, requests_per_hour: 500, requests_per_day: 5_000 },
        SubscriptionTier::Pro => RateLimitConfig { requests_per_minute: 60, requests_per_hour: 1_000, requests_per_day: 10_000 },
        SubscriptionTier::ProPlus => RateLimitConfig { requests_per_minute: 120, requests_per_hour: 2_500, requests_per_day: 25_000 },
        SubscriptionTier::Power => RateLimitConfig { requests_per_minute: 300, requests_per_hour: 10_000, requests_per_day: 100_000 },
        SubscriptionTier::PowerPlus => RateLimitConfig { requests_per_minute: 600, requests_per_hour: 25_000, requests_per_day: 250_000 },
    }
}

impl RateLimitConfig {
    /// The default rate limits of a subscription tier.
    pub fn for_subscription_tier(tier: &SubscriptionTier) -> (r: Self)
        ensures
            r == spec_tier_limits(*tier),
    {
        match tier {
            SubscriptionTier::Free => RateLimitConfig { requests_per_minute: 30, requests_per_hour: 500, requests_per_day: 5_000 },
            SubscriptionTier::Pro => RateLimitConfig { requests_per_minute: 60, requests_per_hour: 1_000, requests_per_day: 10_000 },
            SubscriptionTier::ProPlus => RateLimitConfig { requests_per_minute: 120, requests_per_hour: 2_500, requests_per_day: 25_000 },
            SubscriptionTier::Power => RateLimitConfig { requests_per_minute: 300, requests_per_hour: 10_000, requests_per_day: 100_000 },
            SubscriptionTier::PowerPlus => RateLimitConfig { requests_per_minute: 600, requests_per_hour: 25_000, requests_per_day: 250_000 },
        }
    }
}

/// Result of a rate limit check.
#[derive(Debug, Clone, Copy, PartialEq, Eq, Structural)]
pub enum RateLimitCheckResult {
    /// Request is allowed, with remaining limits
    Allowed { remaining_minute: u32, remaining_hour: u32, remaining_day: u32 },
    /// Per-minute limit exceeded
    ExceededPerMinute { current: u32, limit: u32, reset_after: u64 },
    /// Per-hour limit exceeded
    ExceededPerHour { current: u32, limit: u32, reset_after: u64 },
    /// Per-day limit exceeded
    ExceededPerDay { current: u32, limit: u32, reset_after: u64 },
}

/// Nanoseconds in a second.
pub const NANOS_PER_SEC: u128 = 1_000_000_000;

/// The length of the minute window, in seconds.
pub const MINUTE_SECS: u64 = 60;

/// The length of the hour window, in seconds.
pub const HOUR_SECS: u64 = 3600;

/// The length of the day window, in seconds.
pub const DAY_SECS: u64 = 86400;

/// A window with `count` requests whose start lies `elapsed` nanoseconds
/// back: over `secs` seconds old, it starts afresh (no requests, no time
/// elapsed).
pub open spec fn window_after(count: u32, elapsed: u128, secs: u64) -> (u32, u128) {
    if elapsed > secs * NANOS_PER_SEC {
        (0, 0)
    } else {
        (count, elapsed)
    }
}

/// The seconds until a window of `secs` seconds, `elapsed` nanoseconds old, ends.
pub open spec fn reset_after(elapsed: u128, secs: u64) -> u64 {
    (secs - elapsed / NANOS_PER_SEC) as u64
}

/// The answer to a request when the windows hold `counts` requests and
/// started `elapsed` nanoseconds ago (minute, hour, day).
pub open spec fn spec_check_result(counts: (u32, u32, u32), config: RateLimitConfig, elapsed: (u128, u128, u128)) -> RateLimitCheckResult {
    let m = window_after(counts.0, elapsed.0, MINUTE_SECS);
    let h = window_after(counts.1, elapsed.1, HOUR_SECS);
    let d = window_after(counts.2, elapsed.2, DAY_SECS);
    if m.0 >= config.requests_per_minute {
        RateLimitCheckResult::ExceededPerMinute { current: m.0, limit: config.requests_per_minute, reset_after: reset_after(m.1, MINUTE_SECS) }
    } else if h.0 >= config.requests_per_hour {
        RateLimitCheckResult::ExceededPerHour { current: h.0, limit: config.requests_per_hour, reset_after: reset_after(h.1, HOUR_SECS) }
    } else if d.0 >= config.requests_per_day {
        RateLimitCheckResult::ExceededPerDay { current: d.0, limit: config.requests_per_day, reset_after: reset_after(d.1, DAY_SECS) }
    } else {
        RateLimitCheckResult::Allowed {
            remaining_minute: (config.requests_per_minute - (m.0 + 1)) as u32,
            remaining_hour: (config.requests_per_hour - (h.0 + 1)) as u32,
            remaining_day: (config.requests_per_day - (d.0 + 1)) as u32,
        }
    }
}

/// The window counts after that request: each window counts it when it is
/// allowed.
pub open spec fn spec_counts_after(counts: (u32, u32, u32), config: RateLimitConfig, elapsed: (u128, u128, u128)) -> (u32, u32, u32) {
    let m = window_after(counts.0, elapsed.0, MINUTE_SECS).0;
    let h = window_after(counts.1, elapsed.1, HOUR_SECS).0;
    let d = window_after(counts.2, elapsed.2, DAY_SECS).0;
    if spec_check_result(counts, config, elapsed) is Allowed {
        ((m + 1) as u32, (h + 1) as u32, (d + 1) as u32)
    } else {
        (m, h, d)
    }
}

/// A sliding window rate limiter entry for one API key.
#[derive(Debug)]
pub struct RateLimiterEntry {
    /// The API key ID this entry is for
    pub key_id: String,
    /// Request count in the minute window
    pub minute_requests: u32,
    /// Start of the minute window
    pub minute_window_start: Instant,
    /// Request count in the hour window
    pub hour_requests: u32,
    /// Start of the hour window
    pub hour_window_start: Instant,
    /// Request count in the day window
    pub day_requests: u32,
    /// Start of the day window
    pub day_window_start: Instant,
}

impl RateLimiterEntry {
    /// The three window counts.
    pub open spec fn counts(&self) -> (u32, u32, u32) {
        (self.minute_requests, self.hour_requests, self.day_requests)
    }

    /// `self` is `before` after a check at `now`, with the windows started
    /// `elapsed` nanoseconds before `now`, that answered `r`.
    pub open spec fn checked(&self, before: RateLimiterEntry, config: RateLimitConfig, now: Instant,
        elapsed: (u128, u128, u128), r: RateLimitCheckResult) -> bool
    {
        &&& r == spec_check_result(before.counts(), config, elapsed)
        &&& self.counts() == spec_counts_after(before.counts(), config, elapsed)
        &&& self.key_id@ == before.key_id@
        &&& self.minute_window_start == (if elapsed.0 > MINUTE_SECS * NANOS_PER_SEC { now } else { before.minute_window_start })
        &&& self.hour_window_start == (if elapsed.1 > HOUR_SECS * NANOS_PER_SEC { now } else { before.hour_window_start })
        &&& self.day_window_start == (if elapsed.2 > DAY_SECS * NANOS_PER_SEC { now } else { before.day_window_start })
    }

    /// A fresh entry whose windows start at `now`.
    pub fn new_at(key_id: String, now: Instant) -> (r: Self)
        ensures
            r.key_id@ == key_id@,
            r.counts() == (0u32, 0u32, 0u32),
            r.minute_window_start == now,
            r.hour_window_start == now,
            r.day_window_start == now,
    {
        RateLimiterEntry {
            key_id,
            minute_requests: 0,
            minute_window_start: now,
            hour_requests: 0,
            hour_window_start: now,
            day_requests: 0,
            day_window_start: now,
        }
    }

    /// A fresh entry whose windows start now.
    pub fn new(key_id: String) -> (r: Self)
        ensures
            r.key_id@ == key_id@,
            r.counts() == (0u32, 0u32, 0u32),
            r.minute_window_start == r.hour_window_start,
            r.minute_window_start == r.day_window_start,
    {
        let now = instant_now();
        RateLimiterEntry::new_at(key_id, now)
    }

    /// Checks a request at `now`, when the minute, hour and day windows
    /// started `minute_elapsed`, `hour_elapsed` and `day_elapsed`
    /// nanoseconds before it: expired windows start afresh at `now`; the
    /// first window at its limit refuses the request; otherwise each window
    /// counts it.
    pub fn check_at(&mut self, config: &RateLimitConfig, now: Instant, minute_elapsed: u128, hour_elapsed: u128,
        day_elapsed: u128) -> (r: RateLimitCheckResult)
        ensures
            final(self).checked(*old(self), *config, now, (minute_elapsed, hour_elapsed, day_elapsed), r),
    {
        let mut me = minute_elapsed;
        if minute_elapsed > MINUTE_SECS as u128 * NANOS_PER_SEC {
            self.minute_requests = 0;
            self.minute_window_start = now;
            me = 0;
        }
        let mut he = hour_elapsed;
        if hour_elapsed > HOUR_SECS as u128 * NANOS_PER_SEC {
            self.hour_requests = 0;
            self.hour_window_start = now;
            he = 0;
        }
        let mut de = day_elapsed;
        if day_elapsed > DAY_SECS as u128 * NANOS_PER_SEC {
            self.day_requests = 0;
            self.day_window_start = now;
            de = 0;
        }
        if self.minute_requests >= config.requests_per_minute {
            return RateLimitCheckResult::ExceededPerMinute {
                current: self.minute_requests,
                limit: config.requests_per_minute,
                reset_after: MINUTE_SECS - (me / NANOS_PER_SEC) as u64,
            };
        }
        if self.hour_requests >= config.requests_per_hour {
            return RateLimitCheckResult::ExceededPerHour {
                current: self.hour_requests,
                limit: config.requests_per_hour,
                reset_after: HOUR_SECS - (he / NANOS_PER_SEC) as u64,
            };
        }
        if self.day_requests >= config.requests_per_day {
            return RateLimitCheckResult::ExceededPerDay {
                current: self.day_requests,
                limit: config.requests_per_day,
                reset_after: DAY_SECS - (de / NANOS_PER_SEC) as u64,
            };
        }
        self.minute_requests = self.minute_requests + 1;
        self.hour_requests = self.hour_requests + 1;
        self.day_requests = self.day_requests + 1;
        RateLimitCheckResult::Allowed {
            remaining_minute: config.requests_per_minute - self.minute_requests,
            remaining_hour: config.requests_per_hour - self.hour_requests,
            remaining_day: config.requests_per_day - self.day_requests,
        }
    }

    /// Checks if a request should be allowed now and updates the counters.
    /// Whatever the clock reads, the answer and the new counts are those of
    /// `check_at` for some elapsed times.
    pub fn check_and_update(&mut self, config: &RateLimitConfig) -> (r: RateLimitCheckResult)
        ensures
            exists|now: Instant, elapsed: (u128, u128, u128)| final(self).checked(*old(self), *config, now, elapsed, r),
    {
        let now = instant_now();
        let minute_elapsed = nanos_between(now, self.minute_window_start);
        let hour_elapsed = nanos_between(now, self.hour_window_start);
        let day_elapsed = nanos_between(now, self.day_window_start);
        self.check_at(config, now, minute_elapsed, hour_elapsed, day_elapsed)
    }
}

/// An allowed request leaves every window within its limit, and the
/// remaining counts are what the limits leave; a refused one counts in no
/// window.
pub proof fn lemma_check_within_limits(counts: (u32, u32, u32), config: RateLimitConfig, elapsed: (u128, u128, u128))
    ensures
        ({
            let after = spec_counts_after(counts, config, elapsed);
            match spec_check_result(counts, config, elapsed) {
                RateLimitCheckResult::Allowed { remaining_minute, remaining_hour, remaining_day } => {
                    &&& after.0 <= config.requests_per_minute
                    &&& after.1 <= config.requests_per_hour
                    &&& after.2 <= config.requests_per_day
                    &&& remaining_minute == config.requests_per_minute - after.0
                    &&& remaining_hour == config.requests_per_hour - after.1
                    &&& remaining_day == config.requests_per_day - after.2
                },
                _ => after.0 <= counts.0 && after.1 <= counts.1 && after.2 <= counts.2,
            }
        }),
{
}

/// A window that has not expired still holds its count, and the reset time
/// is at most the window's length.
pub proof fn lemma_reset_after_bounded(count: u32, elapsed: u128, secs: u64)
    requires
        secs > 0,
    ensures
        window_after(count, elapsed, secs).1 <= secs * NANOS_PER_SEC,
        reset_after(window_after(count, elapsed, secs).1, secs) <= secs,
        elapsed <= secs * NANOS_PER_SEC ==> window_after(count, elapsed, secs).0 == count,
{
    let e = window_after(count, elapsed, secs).1;
    assert(e / NANOS_PER_SEC <= secs) by (nonlinear_arith)
        requires e <= secs * NANOS_PER_SEC, NANOS_PER_SEC == 1_000_000_000u128;
}

/// The headers that report `result`.
pub open spec fn spec_rate_limit_headers(result: RateLimitCheckResult) -> Map<Seq<char>, Seq<char>> {
    match result {
        RateLimitCheckResult::Allowed { remaining_minute, remaining_hour, remaining_day } => Map::empty()
            .insert("X-RateLimit-Limit-Minute"@, decimal(remaining_minute as nat))
            .insert("X-RateLimit-Remaining-Minute"@, decimal(remaining_minute as nat))
            .insert("X-RateLimit-Limit-Hour"@, decimal(remaining_hour as nat))
            .insert("X-RateLimit-Remaining-Hour"@, decimal(remaining_hour as nat))
            .insert("X-RateLimit-Limit-Day"@, decimal(remaining_day as nat))
            .insert("X-RateLimit-Remaining-Day"@, decimal(remaining_day as nat)),
        RateLimitCheckResult::ExceededPerMinute { limit, reset_after, .. } => Map::empty()
            .insert("X-RateLimit-Limit-Minute"@, decimal(limit as nat))
            .insert("X-RateLimit-Remaining-Minute"@, "0"@)
            .insert("X-RateLimit-Reset"@, decimal(reset_after as nat))
            .insert("Retry-After"@, decimal(reset_after as nat)),
        RateLimitCheckResult::ExceededPerHour { limit, reset_after, .. } => Map::empty()
            .insert("X-RateLimit-Limit-Hour"@, decimal(limit as nat))
            .insert("X-RateLimit-Remaining-Hour"@, "0"@)
            .insert("X-RateLimit-Reset"@, decimal(reset_after as nat))
            .insert("Retry-After"@, decimal(reset_after as nat)),
        RateLimitCheckResult::ExceededPerDay { limit, reset_after, .. } => Map::empty()
            .insert("X-RateLimit-Limit-Day"@, decimal(limit as nat))
            .insert("X-RateLimit-Remaining-Day"@, "0"@)
            .insert("X-RateLimit-Reset"@, decimal(reset_after as nat))
            .insert("Retry-After"@, decimal(reset_after as nat)),
    }
}

/// Adds the header `name` with the decimal `value`.
fn put_number(headers: &mut StringMap, name: &str, value: u64)
    ensures
        final(headers)@ == old(headers)@.insert(name@, decimal(value as nat)),
{
    headers.insert(owned(name), u64_to_decimal(value));
}

/// Gets the rate limit headers for a response from the rate limit result.
pub fn get_rate_limit_headers(result: &RateLimitCheckResult) -> (r: StringMap)
    ensures
        r@ == spec_rate_limit_headers(*result),
{
    let mut headers = StringMap::new();
    match result {
        RateLimitCheckResult::Allowed { remaining_minute, remaining_hour, remaining_day } => {
            put_number(&mut headers, "X-RateLimit-Limit-Minute", *remaining_minute as u64);
            put_number(&mut headers, "X-RateLimit-Remaining-Minute", *remaining_minute as u64);
            put_number(&mut headers, "X-RateLimit-Limit-Hour", *remaining_hour as u64);
            put_number(&mut headers, "X-RateLimit-Remaining-Hour", *remaining_hour as u64);
            put_number(&mut headers, "X-RateLimit-Limit-Day", *remaining_day as u64);
            put_number(&mut headers, "X-RateLimit-Remaining-Day", *remaining_day as u64);
        },
        RateLimitCheckResult::ExceededPerMinute { limit, reset_after, .. } => {
            put_number(&mut headers, "X-RateLimit-Limit-Minute", *limit as u64);
            headers.insert(owned("X-RateLimit-Remaining-Minute"), owned("0"));
            put_number(&mut headers, "X-RateLimit-Reset", *reset_after);
            put_number(&mut headers, "Retry-After", *reset_after);
        },
        RateLimitCheckResult::ExceededPerHour { limit, reset_after, .. } => {
            put_number(&mut headers, "X-RateLimit-Limit-Hour", *limit as u64);
            headers.insert(owned("X-RateLimit-Remaining-Hour"), owned("0"));
            put_number(&mut headers, "X-RateLimit-Reset", *reset_after);
            put_number(&mut headers, "Retry-After", *reset_after);
        },
        RateLimitCheckResult::ExceededPerDay { limit, reset_after, .. } => {
            put_number(&mut headers, "X-RateLimit-Limit-Day", *limit as u64);
            headers.insert(owned("X-RateLimit-Remaining-Day"), owned("0"));
            put_number(&mut headers, "X-RateLimit-Reset", *reset_after);
            put_number(&mut headers, "Retry-After", *reset_after);
        },
    }
    headers
}

/// The window counts of an entry; none yet for no entry.
pub open spec fn entry_counts(e: Option<RateLimiterEntry>) -> (u32, u32, u32) {
    match e {
        Some(e) => e.counts(),
        None => (0u32, 0u32, 0u32),
    }
}

/// The ages a check uses: those measured for an existing entry, none for a
/// new one (its windows start at the check).
pub open spec fn effective_ages(e: Option<RateLimiterEntry>, ages: (u128, u128, u128)) -> (u128, u128, u128) {
    if e is Some { ages } else { (0u128, 0u128, 0u128) }
}

/// Rate limiter for API keys: one entry per key ID. Callers that share it
/// between tasks hold it behind a lock.
#[derive(Debug)]
pub struct ApiKeyRateLimiter {
    entries: StrMap<RateLimiterEntry>,
}

impl ApiKeyRateLimiter {
    /// Each entry is filed under its own key ID.
    #[verifier::type_invariant]
    closed spec fn inv(&self) -> bool {
        forall|k: Seq<char>| #[trigger] self.entries.spec_get(k) is Some ==> self.entries.spec_get(k).unwrap().key_id@ == k
    }

    /// The entry of the key `key_id`, if it has one.
    pub closed spec fn spec_entry(&self, key_id: Seq<char>) -> Option<RateLimiterEntry> {
        self.entries.spec_get(key_id)
    }

    /// The number of keys with an entry.
    pub closed spec fn spec_len(&self) -> nat {
        self.entries.spec_len()
    }

    /// Create a new rate limiter, with no entries.
    pub fn new() -> (r: Self)
        ensures
            r.spec_len() == 0,
            forall|k: Seq<char>| #[trigger] r.spec_entry(k) is None,
    {
        ApiKeyRateLimiter { entries: StrMap::new() }
    }

    /// The number of keys with an entry.
    pub fn len(&self) -> (r: usize)
        ensures
            r == self.spec_len(),
    {
        self.entries.len()
    }

    /// Check if a request should be allowed for the API key `key_id` on a
    /// subscription of `subscription_tier`, and count it. A key seen for the
    /// first time starts with empty windows. Whatever the clock reads, the
    /// answer and the key's new counts are those of a check for some elapsed
    /// times; other keys are untouched.
    pub fn check_rate_limit(&mut self, key_id: &str, subscription_tier: &SubscriptionTier) -> (r: RateLimitCheckResult)
        ensures
            final(self).spec_entry(key_id@) is Some,
            final(self).spec_entry(key_id@).unwrap().key_id@ == key_id@,
            exists|elapsed: (u128, u128, u128)|
                r == #[trigger] spec_check_result(entry_counts(old(self).spec_entry(key_id@)), spec_tier_limits(*subscription_tier), elapsed)
                && final(self).spec_entry(key_id@).unwrap().counts()
                    == spec_counts_after(entry_counts(old(self).spec_entry(key_id@)), spec_tier_limits(*subscription_tier), elapsed),
            forall|k: Seq<char>| k != key_id@ ==> #[trigger] final(self).spec_entry(k) == old(self).spec_entry(k),
    {
        let now = instant_now();
        let ages = match self.window_ages(key_id, now) {
            Some(a) => a,
            None => (0, 0, 0),
        };
        self.check_rate_limit_at(key_id, subscription_tier, now, ages)
    }

    /// The ages, at `now`, of the minute, hour and day windows of the key
    /// `key_id` in nanoseconds (by `Instant::duration_since`); none when the
    /// key has no entry.
    pub fn window_ages(&self, key_id: &str, now: Instant) -> (r: Option<(u128, u128, u128)>)
        ensures
            r is Some <==> self.spec_entry(key_id@) is Some,
    {
        match self.entries.get(key_id) {
            Some(e) => Some((
                nanos_between(now, e.minute_window_start),
                nanos_between(now, e.hour_window_start),
                nanos_between(now, e.day_window_start),
            )),
            None => None,
        }
    }

    /// Checks a request of the key `key_id` on a subscription of
    /// `subscription_tier` at `now`, when its windows are `ages` old (a key
    /// seen for the first time starts with fresh windows at `now`), and
    /// counts it; other keys are untouched.
    pub fn check_rate_limit_at(&mut self, key_id: &str, subscription_tier: &SubscriptionTier, now: Instant,
        ages: (u128, u128, u128)) -> (r: RateLimitCheckResult)
        ensures
            final(self).spec_entry(key_id@) is Some,
            final(self).spec_entry(key_id@).unwrap().key_id@ == key_id@,
            r == spec_check_result(entry_counts(old(self).spec_entry(key_id@)), spec_tier_limits(*subscription_tier),
                effective_ages(old(self).spec_entry(key_id@), ages)),
            final(self).spec_entry(key_id@).unwrap().counts() == spec_counts_after(entry_counts(old(self).spec_entry(key_id@)),
                spec_tier_limits(*subscription_tier), effective_ages(old(self).spec_entry(key_id@), ages)),
            forall|k: Seq<char>| k != key_id@ ==> #[trigger] final(self).spec_entry(k) == old(self).spec_entry(k),
    {
        proof {
            use_type_invariant(&*self);
        }
        let config = RateLimitConfig::for_subscription_tier(subscription_tier);
        let mut entries: StrMap<RateLimiterEntry> = StrMap::new();
        std::mem::swap(&mut entries, &mut self.entries);
        let (mut entry, el) = match entries.remove(key_id) {
            Some(e) => (e, ages),
            None => (RateLimiterEntry::new_at(owned(key_id), now), (0u128, 0u128, 0u128)),
        };
        let r = entry.check_at(&config, now, el.0, el.1, el.2);
        entries.insert(owned(key_id), entry);
        self.entries = entries;
        r
    }

    /// The keys with an entry, in increasing order.
    pub closed spec fn spec_keys(&self) -> Seq<Seq<char>> {
        self.entries.spec_keys()
    }

    /// There is one key per entry: the keys are as many as the entries, and
    /// a key has an entry exactly when it is among the keys.
    pub fn lemma_keys_have_entries(&self)
        ensures
            self.spec_keys().len() == self.spec_len(),
            self.spec_keys().no_duplicates(),
            forall|k: Seq<char>| #[trigger] self.spec_entry(k) is Some <==> self.spec_keys().contains(k),
    {
        self.entries.lemma_sorted();
        assert forall|k: Seq<char>| #[trigger] self.spec_entry(k) is Some <==> self.spec_keys().contains(k) by {
            if self.spec_keys().contains(k) {
                let i = choose|i: int| 0 <= i < self.spec_keys().len() && self.spec_keys()[i] == k;
                assert(self.entries.spec_keys()[i] == k);
            }
        }
    }

    /// `self` is `before` with exactly the entries dropped whose day window
    /// was, by `ages` (in nanoseconds, one per key in key order), a day old
    /// or more; the entries that stay are unchanged.
    pub open spec fn kept_fresh(&self, before: ApiKeyRateLimiter, ages: Seq<u128>) -> bool {
        &&& forall|i: int| 0 <= i < before.spec_keys().len() ==> #[trigger] self.spec_entry(before.spec_keys()[i])
            == (if ages[i] < DAY_SECS * NANOS_PER_SEC { before.spec_entry(before.spec_keys()[i]) } else { None })
        &&& forall|k: Seq<char>| #[trigger] self.spec_entry(k) is None || self.spec_entry(k) == before.spec_entry(k)
        &&& self.spec_len() <= before.spec_len()
    }

    /// Drops the entries whose day window is a day old or more, given the
    /// age of each entry's day window in nanoseconds (one per key, in
    /// increasing order of key ID).
    pub fn retain_fresh(&mut self, ages: &Vec<u128>)
        requires
            ages@.len() == old(self).spec_len(),
        ensures
            final(self).kept_fresh(*old(self), ages@),
    {
        proof {
            use_type_invariant(&*self);
        }
        self.entries.lemma_sorted();
        let ghost keys = self.entries.spec_keys();
        let ghost base = self.entries;
        let limit: u128 = DAY_SECS as u128 * NANOS_PER_SEC;
        let entries = self.entries.entries();
        let mut stale: Vec<String> = Vec::new();
        let mut i: usize = 0;
        while i < entries.len()
            invariant
                i <= entries@.len(),
                entries@ == base.spec_entries(),
                keys == base.spec_keys(),
                keys.len() == entries@.len(),
                ages@.len() == entries@.len(),
                limit == DAY_SECS * NANOS_PER_SEC,
                forall|k: Seq<char>| #[trigger] views(stale@).contains(k)
                    <==> exists|j: int| 0 <= j < i && keys[j] == k && ages@[j] >= limit,
            decreases entries@.len() - i,
        {
            if !(ages[i] < limit) {
                let ghost before = views(stale@);
                stale.push(entries[i].0.clone());
                proof {
                    assert(keys[i as int] == entries@[i as int].0@);
                    assert(views(stale@) =~= before.push(keys[i as int]));
                    assert forall|k: Seq<char>| #[trigger] views(stale@).contains(k)
                        <==> exists|j: int| 0 <= j < i + 1 && keys[j] == k && ages@[j] >= limit by {
                        if views(stale@).contains(k) {
                            if before.contains(k) {
                                let j = choose|j: int| 0 <= j < i && keys[j] == k && ages@[j] >= limit;
                                assert(0 <= j < i + 1 && keys[j] == k && ages@[j] >= limit);
                            } else {
                                let m = choose|m: int| 0 <= m < views(stale@).len() && views(stale@)[m] == k;
                                assert(m == before.len());
                                assert(keys[i as int] == k);
                            }
                        }
                        if exists|j: int| 0 <= j < i + 1 && keys[j] == k && ages@[j] >= limit {
                            let j = choose|j: int| 0 <= j < i + 1 && keys[j] == k && ages@[j] >= limit;
                            if j < i {
                                assert(before.contains(k));
                                let m = choose|m: int| 0 <= m < before.len() && before[m] == k;
                                assert(views(stale@)[m] == k);
                            } else {
                                assert(views(stale@)[before.len() as int] == k);
                            }
                        }
                    }
                }
            } else {
                proof {
                    assert forall|k: Seq<char>| #[trigger] views(stale@).contains(k)
                        <==> exists|j: int| 0 <= j < i + 1 && keys[j] == k && ages@[j] >= limit by {
                        if exists|j: int| 0 <= j < i + 1 && keys[j] == k && ages@[j] >= limit {
                            let j = choose|j: int| 0 <= j < i + 1 && keys[j] == k && ages@[j] >= limit;
                            assert(j != i);
                            assert(exists|j2: int| 0 <= j2 < i && keys[j2] == k && ages@[j2] >= limit);
                        }
                    }
                }
            }
            i += 1;
        }
        let mut kept: StrMap<RateLimiterEntry> = StrMap::new();
        std::mem::swap(&mut kept, &mut self.entries);
        let mut j: usize = 0;
        proof {
            assert(views(stale@).take(0) =~= Seq::<Seq<char>>::empty());
        }
        while j < stale.len()
            invariant
                j <= stale@.len(),
                kept.spec_len() <= base.spec_len(),
                forall|k: Seq<char>| #[trigger] kept.spec_get(k)
                    == (if views(stale@).take(j as int).contains(k) { None } else { base.spec_get(k) }),
            decreases stale@.len() - j,
        {
            let ghost done = views(stale@).take(j as int);
            let _ = kept.remove(stale[j].as_str());
            proof {
                assert(views(stale@).take(j + 1) =~= done.push(stale@[j as int]@));
                assert forall|k: Seq<char>| #[trigger] kept.spec_get(k)
                    == (if views(stale@).take(j + 1).contains(k) { None } else { base.spec_get(k) }) by {
                    if k == stale@[j as int]@ {
                        assert(views(stale@).take(j + 1)[j as int] == k);
                    } else {
                        if views(stale@).take(j + 1).contains(k) {
                            let m = choose|m: int| 0 <= m < j + 1 && #[trigger] views(stale@).take(j + 1)[m] == k;
                            assert(m < j);
                            assert(done[m] == k);
                        }
                        if done.contains(k) {
                            let m = choose|m: int| 0 <= m < done.len() && done[m] == k;
                            assert(views(stale@).take(j + 1)[m] == k);
                        }
                    }
                }
            }
            j += 1;
        }
        self.entries = kept;
        proof {
            assert(views(stale@).take(stale@.len() as int) =~= views(stale@));
            assert forall|i: int| 0 <= i < keys.len() implies #[trigger] self.spec_entry(keys[i])
                == (if ages@[i] < DAY_SECS * NANOS_PER_SEC { base.spec_get(keys[i]) } else { None }) by {
                if ages@[i] >= limit {
                    assert(views(stale@).contains(keys[i]));
                } else if views(stale@).contains(keys[i]) {
                    let j = choose|j: int| 0 <= j < keys.len() && keys[j] == keys[i] && ages@[j] >= limit;
                    assert(keys.no_duplicates());
                    assert(j == i);
                }
            }
        }
    }

    /// Clean up entries whose day window is a day old or more (call
    /// periodically to avoid memory growth). The age of each entry's day
    /// window is read from the monotonic clock; whatever it reads, exactly
    /// the entries found a day old or more are dropped, and the others stay
    /// unchanged.
    pub fn cleanup_expired(&mut self)
        ensures
            exists|ages: Seq<u128>| ages.len() == old(self).spec_len() && #[trigger] final(self).kept_fresh(*old(self), ages),
    {
        let now = instant_now();
        let entries = self.entries.entries();
        let mut ages: Vec<u128> = Vec::new();
        let mut i: usize = 0;
        while i < entries.len()
            invariant
                i <= entries@.len(),
                entries@ == self.entries.spec_entries(),
                ages@.len() == i,
            decreases entries@.len() - i,
        {
            ages.push(nanos_between(now, entries[i].1.day_window_start));
            i += 1;
        }
        self.retain_fresh(&ages);
    }
}

impl Default for ApiKeyRateLimiter {
    fn default() -> (r: Self)
        ensures
            r.spec_len() == 0,
            forall|k: Seq<char>| #[trigger] r.spec_entry(k) is None,
    {
        Self::new()
    }
}


/// The first request of a key is allowed on every tier, whatever time has
/// passed.
pub proof fn lemma_first_request_allowed(tier: SubscriptionTier, elapsed: (u128, u128, u128))
    ensures
        spec_check_result((0u32, 0u32, 0u32), spec_tier_limits(tier), elapsed) is Allowed,
        spec_counts_after((0u32, 0u32, 0u32), spec_tier_limits(tier), elapsed) == (1u32, 1u32, 1u32),
{
}


/// The number of requests allowed when checks are made one after another,
/// starting from the window counts `counts`, with the windows' ages at each
/// check given by `ages`.
pub open spec fn allowed_in_run(counts: (u32, u32, u32), config: RateLimitConfig, ages: Seq<(u128, u128, u128)>) -> nat
    decreases ages.len(),
{
    if ages.len() == 0 {
        0
    } else {
        (if spec_check_result(counts, config, ages[0]) is Allowed { 1nat } else { 0nat })
            + allowed_in_run(spec_counts_after(counts, config, ages[0]), config, ages.drop_first())
    }
}

/// Within one minute window (no check finds it over a minute old), no more
/// requests are allowed than the per-minute limit leaves.
pub proof fn lemma_minute_window_caps_requests(counts: (u32, u32, u32), config: RateLimitConfig, ages: Seq<(u128, u128, u128)>)
    requires
        counts.0 <= config.requests_per_minute,
        forall|i: int| 0 <= i < ages.len() ==> (#[trigger] ages[i]).0 <= MINUTE_SECS * NANOS_PER_SEC,
    ensures
        allowed_in_run(counts, config, ages) + counts.0 <= config.requests_per_minute,
    decreases ages.len(),
{
    if ages.len() > 0 {
        let next = spec_counts_after(counts, config, ages[0]);
        assert forall|i: int| 0 <= i < ages.drop_first().len() implies (#[trigger] ages.drop_first()[i]).0
            <= MINUTE_SECS * NANOS_PER_SEC by {
            assert(ages.drop_first()[i] == ages[i + 1]);
        }
        lemma_minute_window_caps_requests(next, config, ages.drop_first());
    }
}

/// On the Free tier, a key's requests within one minute (no window found
/// expired) are allowed one by one with the remaining counts going down,
/// until the thirtieth; the next is refused by the minute limit with a
/// reset at most a minute away.
pub proof fn lemma_free_tier_sequence(c: u32, elapsed: (u128, u128, u128))
    requires
        c <= 30,
        elapsed.0 <= MINUTE_SECS * NANOS_PER_SEC,
        elapsed.1 <= HOUR_SECS * NANOS_PER_SEC,
        elapsed.2 <= DAY_SECS * NANOS_PER_SEC,
    ensures
        c < 30 ==> spec_check_result((c, c, c), spec_tier_limits(SubscriptionTier::Free), elapsed)
            == (RateLimitCheckResult::Allowed {
                remaining_minute: (29 - c) as u32,
                remaining_hour: (499 - c) as u32,
                remaining_day: (4999 - c) as u32,
            }),
        c < 30 ==> spec_counts_after((c, c, c), spec_tier_limits(SubscriptionTier::Free), elapsed)
            == ((c + 1) as u32, (c + 1) as u32, (c + 1) as u32),
        c == 30 ==> (spec_check_result((c, c, c), spec_tier_limits(SubscriptionTier::Free), elapsed) matches
            RateLimitCheckResult::ExceededPerMinute { current, limit, reset_after } && current == 30 && limit == 30
            && reset_after <= 60),
        c == 30 ==> spec_counts_after((c, c, c), spec_tier_limits(SubscriptionTier::Free), elapsed) == (c, c, c),
{
    lemma_reset_after_bounded(c, elapsed.0, MINUTE_SECS);
}

/// Per key on the Free tier, through `check_rate_limit_at`: a key that has
/// made `c` requests within the current minute (its windows no older than
/// their lengths) gets its next request allowed with `29 - c` left in the
/// minute while `c < 30`, and refused by the minute limit (reset at most a
/// minute away) at `c == 30`; a key without an entry starts afresh and gets
/// 29, 499 and 4999 left. Other keys' entries are untouched by each check.
pub proof fn lemma_free_tier_per_key(e: Option<RateLimiterEntry>, c: u32, ages: (u128, u128, u128))
    requires
        c <= 30,
        e is Some ==> entry_counts(e) == (c, c, c),
        ages.0 <= MINUTE_SECS * NANOS_PER_SEC,
        ages.1 <= HOUR_SECS * NANOS_PER_SEC,
        ages.2 <= DAY_SECS * NANOS_PER_SEC,
    ensures
        e is None ==> spec_check_result(entry_counts(e), spec_tier_limits(SubscriptionTier::Free), effective_ages(e, ages))
            == (RateLimitCheckResult::Allowed { remaining_minute: 29, remaining_hour: 499, remaining_day: 4999 }),
        e is Some && c < 30 ==> spec_check_result(entry_counts(e), spec_tier_limits(SubscriptionTier::Free), effective_ages(e, ages))
            == (RateLimitCheckResult::Allowed {
                remaining_minute: (29 - c) as u32,
                remaining_hour: (499 - c) as u32,
                remaining_day: (4999 - c) as u32,
            }),
        e is Some && c == 30 ==> (spec_check_result(entry_counts(e), spec_tier_limits(SubscriptionTier::Free),
            effective_ages(e, ages)) matches RateLimitCheckResult::ExceededPerMinute { current, limit, reset_after }
            && current == 30 && limit == 30 && reset_after <= 60),
{
    if e is None {
        lemma_free_tier_sequence(0, (0u128, 0u128, 0u128));
    } else {
        lemma_free_tier_sequence(c, ages);
    }
}
/// The window counts that a check finds: each window's count, or none if
/// the window has expired.
pub open spec fn live_counts(counts: (u32, u32, u32), elapsed: (u128, u128, u128)) -> (int, int, int) {
    (
        if elapsed.0 > 60 * 1_000_000_000 { 0 } else { counts.0 as int },
        if elapsed.1 > 3600 * 1_000_000_000 { 0 } else { counts.1 as int },
        if elapsed.2 > 86400 * 1_000_000_000 { 0 } else { counts.2 as int },
    )
}

/// A refused request changes no window count: the counts after it are
/// those of the unexpired windows before it. An allowed request adds one
/// to each of them, and is allowed only while every window is below its
/// limit.
pub proof fn lemma_refusal_counts_nothing(counts: (u32, u32, u32), config: RateLimitConfig, elapsed: (u128, u128, u128))
    ensures
        !(spec_check_result(counts, config, elapsed) is Allowed) ==> ({
            let after = spec_counts_after(counts, config, elapsed);
            let live = live_counts(counts, elapsed);
            after.0 == live.0 && after.1 == live.1 && after.2 == live.2
        }),
        spec_check_result(counts, config, elapsed) is Allowed ==> ({
            let after = spec_counts_after(counts, config, elapsed);
            let live = live_counts(counts, elapsed);
            &&& after.0 == live.0 + 1 && after.1 == live.1 + 1 && after.2 == live.2 + 1
            &&& live.0 < config.requests_per_minute && live.1 < config.requests_per_hour && live.2 < config.requests_per_day
        }),
{
}

/// Within one hour window (no check finds it over an hour old), no more
/// requests are allowed than the per-hour limit leaves.
pub proof fn lemma_hour_window_caps_requests(counts: (u32, u32, u32), config: RateLimitConfig, ages: Seq<(u128, u128, u128)>)
    requires
        counts.1 <= config.requests_per_hour,
        forall|i: int| 0 <= i < ages.len() ==> (#[trigger] ages[i]).1 <= 3600 * 1_000_000_000,
    ensures
        allowed_in_run(counts, config, ages) + counts.1 <= config.requests_per_hour,
    decreases ages.len(),
{
    if ages.len() > 0 {
        lemma_refusal_counts_nothing(counts, config, ages[0]);
        let next = spec_counts_after(counts, config, ages[0]);
        assert forall|i: int| 0 <= i < ages.drop_first().len() implies (#[trigger] ages.drop_first()[i]).1
            <= 3600 * 1_000_000_000 by {
            assert(ages.drop_first()[i] == ages[i + 1]);
        }
        lemma_hour_window_caps_requests(next, config, ages.drop_first());
    }
}

/// Within one day window (no check finds it over a day old), no more
/// requests are allowed than the per-day limit leaves.
pub proof fn lemma_day_window_caps_requests(counts: (u32, u32, u32), config: RateLimitConfig, ages: Seq<(u128, u128, u128)>)
    requires
        counts.2 <= config.requests_per_day,
        forall|i: int| 0 <= i < ages.len() ==> (#[trigger] ages[i]).2 <= 86400 * 1_000_000_000,
    ensures
        allowed_in_run(counts, config, ages) + counts.2 <= config.requests_per_day,
    decreases ages.len(),
{
    if ages.len() > 0 {
        lemma_refusal_counts_nothing(counts, config, ages[0]);
        let next = spec_counts_after(counts, config, ages[0]);
        assert forall|i: int| 0 <= i < ages.drop_first().len() implies (#[trigger] ages.drop_first()[i]).2
            <= 86400 * 1_000_000_000 by {
            assert(ages.drop_first()[i] == ages[i + 1]);
        }
        lemma_day_window_caps_requests(next, config, ages.drop_first());
    }
}

} // verus!
