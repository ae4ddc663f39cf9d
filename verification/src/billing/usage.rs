//! Usage tracking for billing: tokens per model, month, day and week, agent
//! hire time, and the credits consumed in the current billing period.
//! Times are Unix seconds; calendar keys come from `crate::clock`.

use vstd::prelude::*;
use crate::clock::{
    utc_now_secs, time_ok, month_key, day_key, week_key, hour_of, month_key_of, day_key_of,
    week_key_of, hour_of_day,
};
use crate::ordered::StrMap;
use crate::text::owned;

verus! {

/// Usage metrics for a specific model.
#[derive(Debug, Clone, Copy, PartialEq, Eq, Structural)]
pub struct ModelUsage {
    /// Input tokens consumed
    pub input_tokens: u64,
    /// Output tokens generated
    pub output_tokens: u64,
    /// Number of requests made to this model
    pub request_count: u64,
    /// Last time this model was used
    pub last_used: i64,
}

/// No usage yet, stamped `now`.
pub open spec fn spec_model_zero(now: i64) -> ModelUsage {
    ModelUsage { input_tokens: 0, output_tokens: 0, request_count: 0, last_used: now }
}

/// The usage recorded so far, or none yet (stamped `now`).
pub open spec fn model_or_zero(m: Option<ModelUsage>, now: i64) -> ModelUsage {
    match m {
        Some(u) => u,
        None => spec_model_zero(now),
    }
}

/// `m` has room for one more request of `input` and `output` tokens.
pub open spec fn model_room(m: ModelUsage, input: u64, output: u64) -> bool {
    &&& m.input_tokens + input <= u64::MAX
    &&& m.output_tokens + output <= u64::MAX
    &&& m.request_count + 1 <= u64::MAX
}

/// The usage `m` (none yet if `None`) after one request of `input` and
/// `output` tokens at `now`.
pub open spec fn model_after(m: Option<ModelUsage>, input: u64, output: u64, now: i64) -> ModelUsage {
    let b = model_or_zero(m, now);
    ModelUsage {
        input_tokens: (b.input_tokens + input) as u64,
        output_tokens: (b.output_tokens + output) as u64,
        request_count: (b.request_count + 1) as u64,
        last_used: now,
    }
}

impl ModelUsage {
    /// No usage yet, stamped `now`.
    pub fn zero_at(now: i64) -> (r: Self)
        ensures
            r == spec_model_zero(now),
    {
        ModelUsage { input_tokens: 0, output_tokens: 0, request_count: 0, last_used: now }
    }

    /// Adds one request of `input` and `output` tokens at `now`.
    pub fn record(&mut self, input: u64, output: u64, now: i64)
        requires
            model_room(*old(self), input, output),
        ensures
            *final(self) == model_after(Some(*old(self)), input, output, now),
    {
        self.input_tokens = self.input_tokens + input;
        self.output_tokens = self.output_tokens + output;
        self.request_count = self.request_count + 1;
        self.last_used = now;
    }
}

impl Default for ModelUsage {
    /// No usage yet, stamped with the current time.
    fn default() -> (r: Self)
        ensures
            time_ok(r.last_used),
            r == spec_model_zero(r.last_used),
    {
        ModelUsage::zero_at(utc_now_secs())
    }
}

/// Usage metrics for a specific time period.
#[derive(Debug)]
pub struct PeriodUsage {
    /// Total tokens consumed (input + output)
    pub tokens_consumed: u64,
    /// Input tokens only
    pub input_tokens: u64,
    /// Output tokens only
    pub output_tokens: u64,
    /// Total agent requests
    pub agent_requests: u64,
    /// Breakdown of usage by model
    pub model_breakdown: StrMap<ModelUsage>,
    /// Timestamp of last activity
    pub last_activity: i64,
}

/// The breakdown entry of `model` in `p` (nothing if there is no `p`).
pub open spec fn breakdown_of(p: Option<PeriodUsage>, model: Seq<char>) -> Option<ModelUsage> {
    match p {
        Some(u) => u.model_breakdown.spec_get(model),
        None => None,
    }
}

/// The four counters of `p`, zero if there is no `p`.
pub open spec fn period_counters(p: Option<PeriodUsage>) -> (u64, u64, u64, u64) {
    match p {
        Some(u) => (u.tokens_consumed, u.input_tokens, u.output_tokens, u.agent_requests),
        None => (0, 0, 0, 0),
    }
}

/// `p` has no usage and was stamped `now`.
pub open spec fn period_is_zero(p: PeriodUsage, now: i64) -> bool {
    &&& period_counters(Some(p)) == (0u64, 0u64, 0u64, 0u64)
    &&& p.model_breakdown.spec_len() == 0
    &&& forall|k: Seq<char>| #[trigger] p.model_breakdown.spec_get(k) is None
    &&& p.last_activity == now
}

/// `p` has room for `input` and `output` more tokens, and (if `with_model`)
/// for one more request in the breakdown entry of `model`.
pub open spec fn period_room(p: PeriodUsage, input: u64, output: u64, model: Seq<char>, with_model: bool) -> bool {
    &&& p.tokens_consumed + input + output <= u64::MAX
    &&& p.input_tokens + input <= u64::MAX
    &&& p.output_tokens + output <= u64::MAX
    &&& with_model ==> match p.model_breakdown.spec_get(model) {
        Some(m) => model_room(m, input, output),
        None => true,
    }
}

/// `n` is the period `p` (none yet if `None`) after `input` and `output`
/// tokens at `now`; with `with_model`, also counted as one request of `model`
/// in the breakdown, which is otherwise unchanged.
pub open spec fn period_after(
    n: PeriodUsage,
    p: Option<PeriodUsage>,
    model: Seq<char>,
    input: u64,
    output: u64,
    now: i64,
    with_model: bool,
) -> bool {
    let c = period_counters(p);
    &&& n.tokens_consumed == c.0 + input + output
    &&& n.input_tokens == c.1 + input
    &&& n.output_tokens == c.2 + output
    &&& n.agent_requests == c.3
    &&& n.last_activity == now
    &&& with_model ==> n.model_breakdown.spec_get(model) == Some(model_after(breakdown_of(p, model), input, output, now))
    &&& forall|k: Seq<char>| (!with_model || k != model) ==> #[trigger] n.model_breakdown.spec_get(k) == breakdown_of(p, k)
}

/// `n` holds the same usage as `p`.
pub open spec fn period_same(n: PeriodUsage, p: PeriodUsage) -> bool {
    &&& period_counters(Some(n)) == period_counters(Some(p))
    &&& n.last_activity == p.last_activity
    &&& n.model_breakdown.spec_len() == p.model_breakdown.spec_len()
    &&& forall|k: Seq<char>| #[trigger] n.model_breakdown.spec_get(k) == p.model_breakdown.spec_get(k)
}

impl PeriodUsage {
    /// No usage yet, stamped `now`.
    pub fn zero_at(now: i64) -> (r: Self)
        ensures
            period_is_zero(r, now),
    {
        PeriodUsage {
            tokens_consumed: 0,
            input_tokens: 0,
            output_tokens: 0,
            agent_requests: 0,
            model_breakdown: StrMap::new(),
            last_activity: now,
        }
    }

    /// A copy of this usage.
    pub fn copy(&self) -> (r: Self)
        ensures
            period_same(r, *self),
    {
        PeriodUsage {
            tokens_consumed: self.tokens_consumed,
            input_tokens: self.input_tokens,
            output_tokens: self.output_tokens,
            agent_requests: self.agent_requests,
            model_breakdown: self.model_breakdown.copy(),
            last_activity: self.last_activity,
        }
    }

    /// Adds `input` and `output` tokens at `now`; with `with_model`, also one
    /// request of `model` in the breakdown.
    pub fn record(&mut self, model: &str, input: u64, output: u64, now: i64, with_model: bool)
        requires
            period_room(*old(self), input, output, model@, with_model),
        ensures
            period_after(*final(self), Some(*old(self)), model@, input, output, now, with_model),
    {
        self.tokens_consumed = self.tokens_consumed + input + output;
        self.input_tokens = self.input_tokens + input;
        self.output_tokens = self.output_tokens + output;
        self.last_activity = now;
        if with_model {
            let mut m = match self.model_breakdown.remove(model) {
                Some(m) => m,
                None => ModelUsage::zero_at(now),
            };
            m.record(input, output, now);
            self.model_breakdown.insert(owned(model), m);
        }
    }
}

impl Default for PeriodUsage {
    /// No usage yet, stamped with the current time.
    fn default() -> (r: Self)
        ensures
            time_ok(r.last_activity),
            period_is_zero(r, r.last_activity),
    {
        PeriodUsage::zero_at(utc_now_secs())
    }
}

/// Daily usage record for time-series analysis.
#[derive(Debug)]
pub struct DailyUsage {
    /// The date of this usage record (`%Y-%m-%d`)
    pub date: String,
    /// Total tokens consumed on this day
    pub total_tokens: u64,
    /// Token consumption by hour (0-23)
    pub hourly_breakdown: [u64; 24],
    /// Agent requests made on this day
    pub agent_requests: u64,
}

/// `d` has no usage and is dated `date`.
pub open spec fn daily_is_zero(d: DailyUsage, date: Seq<char>) -> bool {
    &&& d.date@ == date
    &&& d.total_tokens == 0
    &&& d.agent_requests == 0
    &&& forall|i: int| 0 <= i < 24 ==> #[trigger] d.hourly_breakdown@[i] == 0
}

/// `n` holds the same usage as `d`.
pub open spec fn daily_same(n: DailyUsage, d: DailyUsage) -> bool {
    &&& n.date@ == d.date@
    &&& n.total_tokens == d.total_tokens
    &&& n.agent_requests == d.agent_requests
    &&& n.hourly_breakdown@ == d.hourly_breakdown@
}

/// `d` has room for `tokens` more tokens in its total and in hour `hour`.
pub open spec fn daily_room(d: DailyUsage, tokens: int, hour: int) -> bool {
    &&& d.total_tokens + tokens <= u64::MAX
    &&& d.hourly_breakdown@[hour] + tokens <= u64::MAX
}

/// `n` is the day `d` (a new day dated `date` if `None`) after `tokens`
/// tokens in hour `hour` and `requests` agent requests.
pub open spec fn daily_after(n: DailyUsage, d: Option<DailyUsage>, date: Seq<char>, tokens: int, hour: int, requests: int) -> bool {
    match d {
        Some(o) => {
            &&& n.date@ == o.date@
            &&& n.total_tokens == o.total_tokens + tokens
            &&& n.agent_requests == o.agent_requests + requests
            &&& n.hourly_breakdown@ == o.hourly_breakdown@.update(hour, (o.hourly_breakdown@[hour] + tokens) as u64)
        },
        None => {
            &&& n.date@ == date
            &&& n.total_tokens == tokens
            &&& n.agent_requests == requests
            &&& forall|i: int| 0 <= i < 24 ==> #[trigger] n.hourly_breakdown@[i] == (if i == hour { tokens } else { 0 })
        },
    }
}

impl DailyUsage {
    /// No usage yet on the day `date`.
    pub fn zero_on(date: String) -> (r: Self)
        ensures
            daily_is_zero(r, date@),
    {
        DailyUsage { date, total_tokens: 0, hourly_breakdown: [0u64; 24], agent_requests: 0 }
    }

    /// Adds `tokens` tokens in hour `hour`.
    pub fn record_tokens(&mut self, tokens: u64, hour: usize)
        requires
            hour < 24,
            daily_room(*old(self), tokens as int, hour as int),
        ensures
            daily_after(*final(self), Some(*old(self)), old(self).date@, tokens as int, hour as int, 0),
    {
        self.total_tokens = self.total_tokens + tokens;
        let h = self.hourly_breakdown[hour] + tokens;
        self.hourly_breakdown[hour] = h;
    }

    /// Adds one agent request.
    pub fn record_request(&mut self)
        requires
            old(self).agent_requests + 1 <= u64::MAX,
        ensures
            daily_after(*final(self), Some(*old(self)), old(self).date@, 0, 0, 1),
    {
        self.agent_requests = self.agent_requests + 1;
        proof {
            assert(self.hourly_breakdown@ =~= old(self).hourly_breakdown@.update(0, (old(self).hourly_breakdown@[0] + 0) as u64));
        }
    }

    /// A copy of this record.
    pub fn copy(&self) -> (r: Self)
        ensures
            daily_same(r, *self),
    {
        DailyUsage {
            date: self.date.clone(),
            total_tokens: self.total_tokens,
            hourly_breakdown: self.hourly_breakdown,
            agent_requests: self.agent_requests,
        }
    }
}

/// Statistics on agent usage.
#[derive(Debug, Clone, Copy, PartialEq, Eq, Structural)]
pub struct AgentUsageStats {
    /// Total time the agent has been used, in thousandths of an hour
    pub total_hours_ms: u64,
    /// Number of times the agent has been hired
    pub hire_count: u64,
    /// Last time the agent was used
    pub last_used: i64,
}

/// No use yet, stamped at the Unix epoch.
pub open spec fn spec_stats_zero() -> AgentUsageStats {
    AgentUsageStats { total_hours_ms: 0, hire_count: 0, last_used: 0 }
}

/// `s` has room for one more hire of `millihours`.
pub open spec fn stats_room(s: AgentUsageStats, millihours: u64) -> bool {
    &&& s.total_hours_ms + millihours <= u64::MAX
    &&& s.hire_count + 1 <= u64::MAX
}

/// The statistics `s` (none yet if `None`) after one hire of `millihours` at `now`.
pub open spec fn stats_after(s: Option<AgentUsageStats>, millihours: u64, now: i64) -> AgentUsageStats {
    let b = match s {
        Some(u) => u,
        None => spec_stats_zero(),
    };
    AgentUsageStats {
        total_hours_ms: (b.total_hours_ms + millihours) as u64,
        hire_count: (b.hire_count + 1) as u64,
        last_used: now,
    }
}

impl Default for AgentUsageStats {
    /// No use yet, stamped at the Unix epoch.
    fn default() -> (r: Self)
        ensures
            r == spec_stats_zero(),
    {
        AgentUsageStats { total_hours_ms: 0, hire_count: 0, last_used: 0 }
    }
}

impl AgentUsageStats {
    /// Adds one hire of `millihours` at `now`.
    pub fn record(&mut self, millihours: u64, now: i64)
        requires
            stats_room(*old(self), millihours),
        ensures
            *final(self) == stats_after(Some(*old(self)), millihours, now),
    {
        self.total_hours_ms = self.total_hours_ms + millihours;
        self.hire_count = self.hire_count + 1;
        self.last_used = now;
    }
}

/// Agent usage metrics for a specific period.
#[derive(Debug)]
pub struct AgentPeriodUsage {
    /// Total time agents have been used, in thousandths of an hour
    pub total_hours_ms: u64,
    /// Total number of agent hires
    pub hire_count: u64,
    /// Breakdown of usage by agent
    pub agent_breakdown: StrMap<AgentUsageStats>,
    /// Timestamp of last activity
    pub last_activity: i64,
}

/// `p` has room for one more hire of `agent` for `millihours`, also in the
/// agent's entry.
pub open spec fn agent_period_room(p: AgentPeriodUsage, agent: Seq<char>, millihours: u64) -> bool {
    &&& p.total_hours_ms + millihours <= u64::MAX
    &&& p.hire_count + 1 <= u64::MAX
    &&& match p.agent_breakdown.spec_get(agent) {
        Some(st) => stats_room(st, millihours),
        None => true,
    }
}

/// The breakdown entry of `agent` in `p` (nothing if there is no `p`).
pub open spec fn agent_breakdown_of(p: Option<AgentPeriodUsage>, agent: Seq<char>) -> Option<AgentUsageStats> {
    match p {
        Some(u) => u.agent_breakdown.spec_get(agent),
        None => None,
    }
}

/// `n` is the period `p` (none yet if `None`) after one hire of `agent` for
/// `millihours` at `now`.
pub open spec fn agent_period_after(n: AgentPeriodUsage, p: Option<AgentPeriodUsage>, agent: Seq<char>, millihours: u64, now: i64) -> bool {
    let (t, h) = match p {
        Some(u) => (u.total_hours_ms, u.hire_count),
        None => (0u64, 0u64),
    };
    &&& n.total_hours_ms == t + millihours
    &&& n.hire_count == h + 1
    &&& n.last_activity == now
    &&& n.agent_breakdown.spec_get(agent) == Some(stats_after(agent_breakdown_of(p, agent), millihours, now))
    &&& forall|k: Seq<char>| k != agent ==> #[trigger] n.agent_breakdown.spec_get(k) == agent_breakdown_of(p, k)
}

impl AgentPeriodUsage {
    /// No usage yet, stamped at the Unix epoch.
    pub fn zero() -> (r: Self)
        ensures
            r.total_hours_ms == 0,
            r.hire_count == 0,
            r.last_activity == 0,
            r.agent_breakdown.spec_len() == 0,
            forall|k: Seq<char>| #[trigger] r.agent_breakdown.spec_get(k) is None,
    {
        AgentPeriodUsage { total_hours_ms: 0, hire_count: 0, agent_breakdown: StrMap::new(), last_activity: 0 }
    }

    /// Adds one hire of `agent` for `millihours` at `now`.
    pub fn record(&mut self, agent: &str, millihours: u64, now: i64)
        requires
            agent_period_room(*old(self), agent@, millihours),
        ensures
            agent_period_after(*final(self), Some(*old(self)), agent@, millihours, now),
    {
        self.total_hours_ms = self.total_hours_ms + millihours;
        self.hire_count = self.hire_count + 1;
        self.last_activity = now;
        let mut s = match self.agent_breakdown.remove(agent) {
            Some(s) => s,
            None => AgentUsageStats { total_hours_ms: 0, hire_count: 0, last_used: 0 },
        };
        s.record(millihours, now);
        self.agent_breakdown.insert(owned(agent), s);
    }
}

/// Usage tracking for billing purposes.
#[derive(Debug)]
pub struct UsageTracker {
    /// Token usage by month (`%Y-%m`)
    pub token_usage: StrMap<PeriodUsage>,
    /// Agent requests by month (`%Y-%m`)
    pub agent_requests: StrMap<PeriodUsage>,
    /// Token usage by model
    pub model_usage: StrMap<ModelUsage>,
    /// Daily usage records (`%Y-%m-%d`)
    pub daily_usage: StrMap<DailyUsage>,
    /// Weekly aggregated usage (`{year}-W{week}`)
    pub weekly_usage: StrMap<PeriodUsage>,
    /// Current period start time
    pub current_period_start: i64,
    /// Credits consumed in current billing period
    pub current_period_credits_used: u64,
    /// Timestamp of last token usage
    pub last_token_usage: i64,
    /// Timestamp of last agent usage
    pub last_agent_usage: i64,
    /// Map of agent IDs to their usage statistics
    pub agent_usage: StrMap<AgentUsageStats>,
    /// Agent usage by month (`%Y-%m`)
    pub agent_usage_periods: StrMap<AgentPeriodUsage>,
}

/// The credits that `tokens` tokens cost: one per thousand, rounded up.
pub open spec fn spec_token_cost(tokens: int) -> int {
    (tokens + 999) / 1000
}

/// The tokens (input and output) recorded in `s`.
pub open spec fn usage_total(s: Seq<(String, ModelUsage)>) -> int
    decreases s.len(),
{
    if s.len() == 0 {
        0
    } else {
        usage_total(s.drop_last()) + s.last().1.input_tokens + s.last().1.output_tokens
    }
}

proof fn lemma_usage_total_prefix(s: Seq<(String, ModelUsage)>, i: int)
    requires
        0 <= i <= s.len(),
    ensures
        usage_total(s.take(i)) <= usage_total(s),
        0 <= usage_total(s.take(i)),
    decreases s.len() - i,
{
    if i < s.len() {
        lemma_usage_total_prefix(s, i + 1);
        assert(s.take(i + 1).drop_last() =~= s.take(i));
    } else {
        assert(s.take(i) =~= s);
    }
    lemma_usage_total_nonneg(s.take(i));
}

proof fn lemma_usage_total_nonneg(s: Seq<(String, ModelUsage)>)
    ensures
        0 <= usage_total(s),
    decreases s.len(),
{
    if s.len() > 0 {
        lemma_usage_total_nonneg(s.drop_last());
    }
}

/// The tokens of one model's usage.
pub open spec fn usage_tokens(e: (String, ModelUsage)) -> int {
    e.1.input_tokens + e.1.output_tokens
}

proof fn lemma_usage_total_remove(s: Seq<(String, ModelUsage)>, i: int)
    requires
        0 <= i < s.len(),
    ensures
        usage_total(s.remove(i)) + usage_tokens(s[i]) == usage_total(s),
    decreases s.len(),
{
    if i == s.len() - 1 {
        assert(s.remove(i) =~= s.drop_last());
    } else {
        lemma_usage_total_remove(s.drop_last(), i);
        assert(s.remove(i).drop_last() =~= s.drop_last().remove(i));
        assert(s.remove(i).last() == s.last());
    }
}

proof fn lemma_usage_total_insert(s: Seq<(String, ModelUsage)>, i: int, e: (String, ModelUsage))
    requires
        0 <= i <= s.len(),
    ensures
        usage_total(s.insert(i, e)) == usage_total(s) + usage_tokens(e),
    decreases s.len(),
{
    if i == s.len() {
        assert(s.insert(i, e).drop_last() =~= s);
    } else {
        lemma_usage_total_insert(s.drop_last(), i, e);
        assert(s.insert(i, e).drop_last() =~= s.drop_last().insert(i, e));
        assert(s.insert(i, e).last() == s.last());
    }
}

/// An empty tracker whose period starts at `now`.
pub open spec fn tracker_is_new(t: UsageTracker, now: i64) -> bool {
    &&& forall|k: Seq<char>| #[trigger] t.token_usage.spec_get(k) is None
    &&& forall|k: Seq<char>| #[trigger] t.agent_requests.spec_get(k) is None
    &&& forall|k: Seq<char>| #[trigger] t.model_usage.spec_get(k) is None
    &&& forall|k: Seq<char>| #[trigger] t.daily_usage.spec_get(k) is None
    &&& forall|k: Seq<char>| #[trigger] t.weekly_usage.spec_get(k) is None
    &&& forall|k: Seq<char>| #[trigger] t.agent_usage.spec_get(k) is None
    &&& forall|k: Seq<char>| #[trigger] t.agent_usage_periods.spec_get(k) is None
    &&& t.model_usage.spec_len() == 0
    &&& t.current_period_start == now
    &&& t.current_period_credits_used == 0
    &&& t.last_token_usage == now
    &&& t.last_agent_usage == now
}

impl UsageTracker {
    /// An empty tracker whose period starts at `now`.
    pub fn new_at(now: i64) -> (r: Self)
        ensures
            tracker_is_new(r, now),
    {
        UsageTracker {
            token_usage: StrMap::new(),
            agent_requests: StrMap::new(),
            model_usage: StrMap::new(),
            daily_usage: StrMap::new(),
            weekly_usage: StrMap::new(),
            current_period_start: now,
            current_period_credits_used: 0,
            last_token_usage: now,
            last_agent_usage: now,
            agent_usage: StrMap::new(),
            agent_usage_periods: StrMap::new(),
        }
    }

    /// Create a new usage tracker whose period starts now.
    pub fn new() -> (r: Self)
        ensures
            time_ok(r.current_period_start),
            tracker_is_new(r, r.current_period_start),
    {
        UsageTracker::new_at(utc_now_secs())
    }

    /// The usage recorded for the month of the current period's start, if any.
    pub open spec fn spec_current(&self) -> Option<PeriodUsage> {
        match month_key_of(self.current_period_start) {
            Some(k) => self.token_usage.spec_get(k),
            None => None,
        }
    }

    /// Get usage for the current period: that of the month in which the
    /// period started, or no usage (stamped now) if none was recorded.
    pub fn current_usage(&self) -> (r: PeriodUsage)
        ensures
            match self.spec_current() {
                Some(p) => period_same(r, p),
                None => time_ok(r.last_activity) && period_is_zero(r, r.last_activity),
            },
    {
        match month_key(self.current_period_start) {
            Some(k) => match self.token_usage.get(k.as_str()) {
                Some(p) => p.copy(),
                None => PeriodUsage::zero_at(utc_now_secs()),
            },
            None => PeriodUsage::zero_at(utc_now_secs()),
        }
    }

    /// The usage of the day of `now`, or none yet on that day.
    pub fn today_usage_at(&self, now: i64) -> (r: DailyUsage)
        requires
            time_ok(now),
        ensures
            match self.daily_usage.spec_get(day_key_of(now).unwrap()) {
                Some(d) => daily_same(r, d),
                None => daily_is_zero(r, day_key_of(now).unwrap()),
            },
    {
        let today = day_key(now).unwrap();
        match self.daily_usage.get(today.as_str()) {
            Some(d) => d.copy(),
            None => DailyUsage::zero_on(today),
        }
    }

    /// Get the current day's usage.
    pub fn today_usage(&self) -> (r: DailyUsage)
        ensures
            exists|now: i64|
                time_ok(now) && match self.daily_usage.spec_get(day_key_of(now).unwrap()) {
                    Some(d) => daily_same(r, d),
                    None => daily_is_zero(r, day_key_of(now).unwrap()),
                },
    {
        let now = utc_now_secs();
        self.today_usage_at(now)
    }

    /// Get total tokens consumed (both input and output) over all models.
    pub fn total_tokens_consumed(&self) -> (r: u64)
        requires
            usage_total(self.model_usage.spec_entries()) <= u64::MAX,
        ensures
            r == usage_total(self.model_usage.spec_entries()),
    {
        let entries = self.model_usage.entries();
        let ghost s = entries@;
        let mut total: u64 = 0;
        let mut i: usize = 0;
        while i < entries.len()
            invariant
                s == entries@,
                s == self.model_usage.spec_entries(),
                usage_total(s) <= u64::MAX,
                i <= s.len(),
                total == usage_total(s.take(i as int)),
            decreases s.len() - i,
        {
            proof {
                lemma_usage_total_prefix(s, i + 1);
                assert(s.take(i + 1).drop_last() =~= s.take(i as int));
            }
            total = total + entries[i].1.input_tokens + entries[i].1.output_tokens;
            i += 1;
        }
        proof {
            assert(s.take(i as int) =~= s);
        }
        total
    }

    /// Get tokens consumed in the current period.
    pub fn current_period_tokens(&self) -> (r: u64)
        ensures
            r == match self.spec_current() {
                Some(p) => p.tokens_consumed,
                None => 0,
            },
    {
        self.current_usage().tokens_consumed
    }

    /// Get usage for a specific model, or no usage (stamped now).
    pub fn model_usage(&self, model_id: &str) -> (r: ModelUsage)
        ensures
            match self.model_usage.spec_get(model_id@) {
                Some(m) => r == m,
                None => time_ok(r.last_used) && r == spec_model_zero(r.last_used),
            },
    {
        match self.model_usage.get(model_id) {
            Some(m) => *m,
            None => ModelUsage::zero_at(utc_now_secs()),
        }
    }

    /// The cost in credits of `input_tokens` and `output_tokens`: one credit
    /// per thousand tokens, rounded up.
    fn calculate_token_cost(&self, model_id: &str, input_tokens: u64, output_tokens: u64) -> (r: u64)
        requires
            input_tokens + output_tokens <= u64::MAX,
        ensures
            r == spec_token_cost(input_tokens + output_tokens),
    {
        let total_tokens = input_tokens + output_tokens;
        let whole = total_tokens / 1000;
        if total_tokens % 1000 == 0 { whole } else { whole + 1 }
    }

    /// The tracker has room to record `input` and `output` more tokens of
    /// `model` at `now` in each entry that the recording touches: the
    /// model's totals, the month, day (and hour) and week of `now`, and the
    /// period's credits.
    pub open spec fn token_room_at(&self, model: Seq<char>, input: u64, output: u64, now: i64) -> bool {
        &&& input + output <= u64::MAX
        &&& match self.model_usage.spec_get(model) {
            Some(m) => model_room(m, input, output),
            None => true,
        }
        &&& match self.token_usage.spec_get(month_key_of(now).unwrap()) {
            Some(p) => period_room(p, input, output, model, true),
            None => true,
        }
        &&& match self.daily_usage.spec_get(day_key_of(now).unwrap()) {
            Some(d) => daily_room(d, input + output, hour_of_day(now).unwrap() as int),
            None => true,
        }
        &&& match self.weekly_usage.spec_get(week_key_of(now).unwrap()) {
            Some(w) => period_room(w, input, output, model, false),
            None => true,
        }
        &&& self.current_period_credits_used + spec_token_cost(input + output) <= u64::MAX
    }

    /// `self` is `before` after recording `input` and `output` tokens of
    /// `model` at `now`: in the model's totals, in the month, day (and hour)
    /// and week of `now`, and in the credits of the current period.
    pub open spec fn tokens_recorded(&self, before: UsageTracker, model: Seq<char>, input: u64, output: u64, now: i64) -> bool {
        let mk = month_key_of(now).unwrap();
        let dk = day_key_of(now).unwrap();
        let wk = week_key_of(now).unwrap();
        &&& self.last_token_usage == now
        &&& self.model_usage.spec_get(model) == Some(model_after(before.model_usage.spec_get(model), input, output, now))
        &&& forall|k: Seq<char>| k != model ==> #[trigger] self.model_usage.spec_get(k) == before.model_usage.spec_get(k)
        &&& self.token_usage.spec_get(mk) is Some
        &&& period_after(self.token_usage.spec_get(mk).unwrap(), before.token_usage.spec_get(mk), model, input, output, now, true)
        &&& forall|k: Seq<char>| k != mk ==> #[trigger] self.token_usage.spec_get(k) == before.token_usage.spec_get(k)
        &&& self.daily_usage.spec_get(dk) is Some
        &&& daily_after(self.daily_usage.spec_get(dk).unwrap(), before.daily_usage.spec_get(dk), dk, input + output, hour_of_day(now).unwrap() as int, 0)
        &&& forall|k: Seq<char>| k != dk ==> #[trigger] self.daily_usage.spec_get(k) == before.daily_usage.spec_get(k)
        &&& self.weekly_usage.spec_get(wk) is Some
        &&& period_after(self.weekly_usage.spec_get(wk).unwrap(), before.weekly_usage.spec_get(wk), model, input, output, now, false)
        &&& forall|k: Seq<char>| k != wk ==> #[trigger] self.weekly_usage.spec_get(k) == before.weekly_usage.spec_get(k)
        &&& self.current_period_credits_used == before.current_period_credits_used + spec_token_cost(input + output)
        &&& self.agent_requests == before.agent_requests
        &&& self.current_period_start == before.current_period_start
        &&& self.last_agent_usage == before.last_agent_usage
        &&& self.agent_usage == before.agent_usage
        &&& self.agent_usage_periods == before.agent_usage_periods
    }

    /// Records `input_tokens` and `output_tokens` of `model_id` at `now`, and
    /// returns their cost in credits.
    pub fn record_token_usage_at(&mut self, model_id: &str, input_tokens: u64, output_tokens: u64, now: i64) -> (r: u64)
        requires
            time_ok(now),
            old(self).token_room_at(model_id@, input_tokens, output_tokens, now),
        ensures
            r == spec_token_cost(input_tokens + output_tokens),
            final(self).tokens_recorded(*old(self), model_id@, input_tokens, output_tokens, now),
            usage_total(final(self).model_usage.spec_entries())
                == usage_total(old(self).model_usage.spec_entries()) + input_tokens + output_tokens,
    {
        let ghost before = *self;
        let tokens = input_tokens + output_tokens;
        self.last_token_usage = now;

        let ghost s0 = self.model_usage.spec_entries();
        let mut m = match self.model_usage.remove(model_id) {
            Some(m) => m,
            None => ModelUsage::zero_at(now),
        };
        let ghost m0 = m;
        proof {
            let s1 = self.model_usage.spec_entries();
            if before.model_usage.spec_get(model_id@) is Some {
                let i = choose|i: int| 0 <= i < s0.len() && s0[i].1 == m0 && s1 == #[trigger] s0.remove(i);
                lemma_usage_total_remove(s0, i);
            }
        }
        m.record(input_tokens, output_tokens, now);
        let ghost s1 = self.model_usage.spec_entries();
        let model_key = owned(model_id);
        let ghost pair = (model_key, m);
        self.model_usage.insert(model_key, m);
        proof {
            let s2 = self.model_usage.spec_entries();
            let j = choose|j: int| 0 <= j <= s1.len() && s2 == #[trigger] s1.insert(j, pair);
            lemma_usage_total_insert(s1, j, pair);
        }

        let mk = month_key(now).unwrap();
        let ghost mkv = mk@;
        let mut p = match self.token_usage.remove(mk.as_str()) {
            Some(p) => p,
            None => PeriodUsage::zero_at(now),
        };
        let ghost p0 = p;
        p.record(model_id, input_tokens, output_tokens, now, true);
        proof {
            if before.token_usage.spec_get(mkv) is None {
                assert(breakdown_of(Some(p0), model_id@) == breakdown_of(None, model_id@));
                assert forall|k: Seq<char>| (k != model_id@) implies #[trigger] p.model_breakdown.spec_get(k) == breakdown_of(None, k) by {
                    assert(breakdown_of(Some(p0), k) is None);
                }
            }
        }
        self.token_usage.insert(mk, p);

        let dk = day_key(now).unwrap();
        let ghost dkv = dk@;
        let hour = hour_of(now).unwrap();
        let mut d = match self.daily_usage.remove(dk.as_str()) {
            Some(d) => d,
            None => DailyUsage::zero_on(dk.clone()),
        };
        let ghost d0 = d;
        d.record_tokens(tokens, hour as usize);
        proof {
            if before.daily_usage.spec_get(dkv) is None {
                assert forall|i: int| 0 <= i < 24 implies #[trigger] d.hourly_breakdown@[i] == (if i == hour as int { tokens as int } else { 0 }) by {
                    assert(d0.hourly_breakdown@[i] == 0);
                }
            }
        }
        self.daily_usage.insert(dk, d);

        let wk = week_key(now).unwrap();
        let ghost wkv = wk@;
        let mut w = match self.weekly_usage.remove(wk.as_str()) {
            Some(w) => w,
            None => PeriodUsage::zero_at(now),
        };
        let ghost w0 = w;
        w.record(model_id, input_tokens, output_tokens, now, false);
        proof {
            if before.weekly_usage.spec_get(wkv) is None {
                assert forall|k: Seq<char>| true implies #[trigger] w.model_breakdown.spec_get(k) == breakdown_of(None, k) by {
                    assert(breakdown_of(Some(w0), k) is None);
                }
            }
        }
        self.weekly_usage.insert(wk, w);

        let token_cost = self.calculate_token_cost(model_id, input_tokens, output_tokens);
        self.current_period_credits_used = self.current_period_credits_used + token_cost;
        token_cost
    }

    /// Whether the tracker has room to record `input_tokens` and
    /// `output_tokens` of `model_id` at `now`.
    pub fn has_token_room_at(&self, model_id: &str, input_tokens: u64, output_tokens: u64, now: i64) -> (r: bool)
        requires
            time_ok(now),
        ensures
            r == self.token_room_at(model_id@, input_tokens, output_tokens, now),
    {
        if input_tokens > u64::MAX - output_tokens {
            return false;
        }
        let tokens = input_tokens + output_tokens;
        let fits_model = match self.model_usage.get(model_id) {
            Some(m) => m.input_tokens <= u64::MAX - input_tokens && m.output_tokens <= u64::MAX - output_tokens
                && m.request_count < u64::MAX,
            None => true,
        };
        let mk = month_key(now).unwrap();
        let fits_month = match self.token_usage.get(mk.as_str()) {
            Some(p) => p.tokens_consumed <= u64::MAX - tokens && p.input_tokens <= u64::MAX - input_tokens
                && p.output_tokens <= u64::MAX - output_tokens && match p.model_breakdown.get(model_id) {
                Some(m) => m.input_tokens <= u64::MAX - input_tokens && m.output_tokens <= u64::MAX - output_tokens
                    && m.request_count < u64::MAX,
                None => true,
            },
            None => true,
        };
        let dk = day_key(now).unwrap();
        let hour = hour_of(now).unwrap();
        let fits_day = match self.daily_usage.get(dk.as_str()) {
            Some(d) => d.total_tokens <= u64::MAX - tokens && d.hourly_breakdown[hour as usize] <= u64::MAX - tokens,
            None => true,
        };
        let wk = week_key(now).unwrap();
        let fits_week = match self.weekly_usage.get(wk.as_str()) {
            Some(w) => w.tokens_consumed <= u64::MAX - tokens && w.input_tokens <= u64::MAX - input_tokens
                && w.output_tokens <= u64::MAX - output_tokens,
            None => true,
        };
        let cost = self.calculate_token_cost(model_id, input_tokens, output_tokens);
        fits_model && fits_month && fits_day && fits_week && self.current_period_credits_used <= u64::MAX - cost
    }

    /// Record token usage for a specific model at the current time, and
    /// return its cost in credits; `None`, with nothing recorded, when some
    /// total that the recording touches would pass `u64::MAX`.
    pub fn record_token_usage(&mut self, model_id: &str, input_tokens: u64, output_tokens: u64) -> (r: Option<u64>)
        ensures
            match r {
                Some(c) => c == spec_token_cost(input_tokens + output_tokens)
                    && usage_total(final(self).model_usage.spec_entries())
                        == usage_total(old(self).model_usage.spec_entries()) + input_tokens + output_tokens
                    && exists|now: i64| time_ok(now) && old(self).token_room_at(model_id@, input_tokens, output_tokens, now)
                        && final(self).tokens_recorded(*old(self), model_id@, input_tokens, output_tokens, now),
                None => *final(self) == *old(self)
                    && exists|now: i64| time_ok(now) && !old(self).token_room_at(model_id@, input_tokens, output_tokens, now),
            },
    {
        let now = utc_now_secs();
        if self.has_token_room_at(model_id, input_tokens, output_tokens, now) {
            Some(self.record_token_usage_at(model_id, input_tokens, output_tokens, now))
        } else {
            None
        }
    }

    /// The tracker has room to record one more hire of `agent` for
    /// `millihours` costing `cost` credits at `now` in each entry that the
    /// recording touches: the agent's totals, the month and day of `now`,
    /// and the period's credits.
    pub open spec fn agent_room_at(&self, agent: Seq<char>, millihours: u64, cost: u64, now: i64) -> bool {
        &&& match self.agent_usage.spec_get(agent) {
            Some(st) => stats_room(st, millihours),
            None => true,
        }
        &&& match self.agent_usage_periods.spec_get(month_key_of(now).unwrap()) {
            Some(p) => agent_period_room(p, agent, millihours),
            None => true,
        }
        &&& match self.daily_usage.spec_get(day_key_of(now).unwrap()) {
            Some(d) => d.agent_requests + 1 <= u64::MAX,
            None => true,
        }
        &&& self.current_period_credits_used + cost <= u64::MAX
    }

    /// `self` is `before` after recording one hire of `agent` for
    /// `millihours` costing `cost` credits at `now`: in the agent's totals,
    /// in the month and the day of `now`, and in the credits of the period.
    pub open spec fn agent_recorded(&self, before: UsageTracker, agent: Seq<char>, millihours: u64, cost: u64, now: i64) -> bool {
        let mk = month_key_of(now).unwrap();
        let dk = day_key_of(now).unwrap();
        &&& self.last_agent_usage == now
        &&& self.agent_usage.spec_get(agent) == Some(stats_after(before.agent_usage.spec_get(agent), millihours, now))
        &&& forall|k: Seq<char>| k != agent ==> #[trigger] self.agent_usage.spec_get(k) == before.agent_usage.spec_get(k)
        &&& self.agent_usage_periods.spec_get(mk) is Some
        &&& agent_period_after(self.agent_usage_periods.spec_get(mk).unwrap(), before.agent_usage_periods.spec_get(mk), agent, millihours, now)
        &&& forall|k: Seq<char>| k != mk ==> #[trigger] self.agent_usage_periods.spec_get(k) == before.agent_usage_periods.spec_get(k)
        &&& self.daily_usage.spec_get(dk) is Some
        &&& daily_after(self.daily_usage.spec_get(dk).unwrap(), before.daily_usage.spec_get(dk), dk, 0, 0, 1)
        &&& forall|k: Seq<char>| k != dk ==> #[trigger] self.daily_usage.spec_get(k) == before.daily_usage.spec_get(k)
        &&& self.current_period_credits_used == before.current_period_credits_used + cost
        &&& self.token_usage == before.token_usage
        &&& self.agent_requests == before.agent_requests
        &&& self.model_usage == before.model_usage
        &&& self.weekly_usage == before.weekly_usage
        &&& self.current_period_start == before.current_period_start
        &&& self.last_token_usage == before.last_token_usage
    }

    /// Records one hire of `agent_id` for `duration_millihours` (thousandths
    /// of an hour) at `now`, charged `agent_cost` credits, and returns the
    /// charge.
    pub fn record_agent_usage_at(&mut self, agent_id: &str, duration_millihours: u64, agent_cost: u64, now: i64) -> (r: u64)
        requires
            time_ok(now),
            old(self).agent_room_at(agent_id@, duration_millihours, agent_cost, now),
        ensures
            r == agent_cost,
            final(self).agent_recorded(*old(self), agent_id@, duration_millihours, agent_cost, now),
    {
        let ghost before = *self;
        self.last_agent_usage = now;

        let mut a = match self.agent_usage.remove(agent_id) {
            Some(a) => a,
            None => AgentUsageStats { total_hours_ms: 0, hire_count: 0, last_used: 0 },
        };
        a.record(duration_millihours, now);
        self.agent_usage.insert(owned(agent_id), a);

        let mk = month_key(now).unwrap();
        let ghost mkv = mk@;
        let mut p = match self.agent_usage_periods.remove(mk.as_str()) {
            Some(p) => p,
            None => AgentPeriodUsage::zero(),
        };
        let ghost p0 = p;
        p.record(agent_id, duration_millihours, now);
        proof {
            if before.agent_usage_periods.spec_get(mkv) is None {
                assert(agent_breakdown_of(Some(p0), agent_id@) == agent_breakdown_of(None, agent_id@));
                assert forall|k: Seq<char>| k != agent_id@ implies #[trigger] p.agent_breakdown.spec_get(k) == agent_breakdown_of(None, k) by {
                    assert(agent_breakdown_of(Some(p0), k) is None);
                }
            }
        }
        self.agent_usage_periods.insert(mk, p);

        let dk = day_key(now).unwrap();
        let ghost dkv = dk@;
        let mut d = match self.daily_usage.remove(dk.as_str()) {
            Some(d) => d,
            None => DailyUsage::zero_on(dk.clone()),
        };
        let ghost d0 = d;
        d.record_request();
        proof {
            if before.daily_usage.spec_get(dkv) is None {
                assert forall|i: int| 0 <= i < 24 implies #[trigger] d.hourly_breakdown@[i] == (if i == 0 { 0int } else { 0 }) by {
                    assert(d0.hourly_breakdown@[i] == 0);
                }
            }
        }
        self.daily_usage.insert(dk, d);

        self.current_period_credits_used = self.current_period_credits_used + agent_cost;
        agent_cost
    }

    /// Whether the tracker has room to record one hire of `agent_id` for
    /// `duration_millihours` costing `agent_cost` credits at `now`.
    pub fn has_agent_room_at(&self, agent_id: &str, duration_millihours: u64, agent_cost: u64, now: i64) -> (r: bool)
        requires
            time_ok(now),
        ensures
            r == self.agent_room_at(agent_id@, duration_millihours, agent_cost, now),
    {
        let fits_agent = match self.agent_usage.get(agent_id) {
            Some(st) => st.total_hours_ms <= u64::MAX - duration_millihours && st.hire_count < u64::MAX,
            None => true,
        };
        let mk = month_key(now).unwrap();
        let fits_month = match self.agent_usage_periods.get(mk.as_str()) {
            Some(p) => p.total_hours_ms <= u64::MAX - duration_millihours && p.hire_count < u64::MAX
                && match p.agent_breakdown.get(agent_id) {
                Some(st) => st.total_hours_ms <= u64::MAX - duration_millihours && st.hire_count < u64::MAX,
                None => true,
            },
            None => true,
        };
        let dk = day_key(now).unwrap();
        let fits_day = match self.daily_usage.get(dk.as_str()) {
            Some(d) => d.agent_requests < u64::MAX,
            None => true,
        };
        fits_agent && fits_month && fits_day && self.current_period_credits_used <= u64::MAX - agent_cost
    }

    /// Record one hire of `agent_id` for `duration_millihours` (thousandths of
    /// an hour) at the current time, charged `agent_cost` credits (one per
    /// started hour), and return the charge; `None`, with nothing recorded,
    /// when some total that the recording touches would pass `u64::MAX`.
    pub fn record_agent_usage(&mut self, agent_id: &str, duration_millihours: u64, agent_cost: u64) -> (r: Option<u64>)
        ensures
            match r {
                Some(c) => c == agent_cost && exists|now: i64| time_ok(now)
                    && old(self).agent_room_at(agent_id@, duration_millihours, agent_cost, now)
                    && final(self).agent_recorded(*old(self), agent_id@, duration_millihours, agent_cost, now),
                None => *final(self) == *old(self)
                    && exists|now: i64| time_ok(now) && !old(self).agent_room_at(agent_id@, duration_millihours, agent_cost, now),
            },
    {
        let now = utc_now_secs();
        if self.has_agent_room_at(agent_id, duration_millihours, agent_cost, now) {
            Some(self.record_agent_usage_at(agent_id, duration_millihours, agent_cost, now))
        } else {
            None
        }
    }

    /// The agent time recorded for the month `period`, in thousandths of an
    /// hour (zero if none).
    pub open spec fn spec_agent_time(&self, period: Seq<char>) -> u64 {
        match self.agent_usage_periods.spec_get(period) {
            Some(p) => p.total_hours_ms,
            None => 0,
        }
    }

    /// Agent time used in the month `period`, or in the month of `now` if no
    /// period is given, in thousandths of an hour.
    pub fn total_agent_hours_ms_at(&self, period: Option<String>, now: i64) -> (r: u64)
        requires
            time_ok(now),
        ensures
            r == self.spec_agent_time(match period {
                Some(k) => k@,
                None => month_key_of(now).unwrap(),
            }),
    {
        let key = match period {
            Some(k) => k,
            None => month_key(now).unwrap(),
        };
        match self.agent_usage_periods.get(key.as_str()) {
            Some(p) => p.total_hours_ms,
            None => 0,
        }
    }

    /// Agent time used in the month `period`, or in the current month if no
    /// period is given, in thousandths of an hour.
    pub fn total_agent_hours_ms(&self, period: Option<String>) -> (r: u64)
        ensures
            exists|now: i64| time_ok(now) && r == self.spec_agent_time(match period {
                Some(k) => k@,
                None => month_key_of(now).unwrap(),
            }),
    {
        let now = utc_now_secs();
        self.total_agent_hours_ms_at(period, now)
    }

    /// Get remaining credits for the current billing period.
    pub fn remaining_credits(&self, total_credits_per_period: u64) -> (r: u64)
        ensures
            r == if self.current_period_credits_used >= total_credits_per_period { 0 } else {
                total_credits_per_period - self.current_period_credits_used
            },
    {
        if self.current_period_credits_used >= total_credits_per_period {
            0
        } else {
            total_credits_per_period - self.current_period_credits_used
        }
    }

    /// Check if the account has sufficient credits for a token operation.
    pub fn has_sufficient_credits(&self, total_credits_per_period: u64, required_credits: u64) -> (r: bool)
        ensures
            r == (required_credits == 0 || self.current_period_credits_used + required_credits <= total_credits_per_period),
    {
        self.remaining_credits(total_credits_per_period) >= required_credits
    }

    /// Estimate token cost for a planned operation.
    pub fn estimate_token_cost(&self, model_id: &str, estimated_input_tokens: u64, estimated_output_tokens: u64) -> (r: u64)
        requires
            estimated_input_tokens + estimated_output_tokens <= u64::MAX,
        ensures
            r == spec_token_cost(estimated_input_tokens + estimated_output_tokens),
    {
        self.calculate_token_cost(model_id, estimated_input_tokens, estimated_output_tokens)
    }

    /// Get agent usage statistics for a specific agent.
    pub fn agent_usage_stats(&self, agent_id: &str) -> (r: Option<&AgentUsageStats>)
        ensures
            match r {
                Some(s) => self.agent_usage.spec_get(agent_id@) == Some(*s),
                None => self.agent_usage.spec_get(agent_id@) is None,
            },
    {
        self.agent_usage.get(agent_id)
    }

    /// Reset usage for a new billing period: only the credit counter goes
    /// back to zero; the history stays.
    pub fn reset_period_usage(&mut self)
        ensures
            final(self).current_period_credits_used == 0,
            final(self).token_usage == old(self).token_usage,
            final(self).agent_requests == old(self).agent_requests,
            final(self).model_usage == old(self).model_usage,
            final(self).daily_usage == old(self).daily_usage,
            final(self).weekly_usage == old(self).weekly_usage,
            final(self).current_period_start == old(self).current_period_start,
            final(self).last_token_usage == old(self).last_token_usage,
            final(self).last_agent_usage == old(self).last_agent_usage,
            final(self).agent_usage == old(self).agent_usage,
            final(self).agent_usage_periods == old(self).agent_usage_periods,
    {
        self.current_period_credits_used = 0;
    }
}

impl Default for UsageTracker {
    /// An empty tracker whose period starts now.
    fn default() -> (r: Self)
        ensures
            time_ok(r.current_period_start),
            tracker_is_new(r, r.current_period_start),
    {
        UsageTracker::new()
    }
}


/// A token costs at most a credit, no tokens cost nothing, and more tokens
/// never cost less.
pub proof fn lemma_token_cost_bounds(tokens: nat, more: nat)
    requires
        tokens <= more,
    ensures
        spec_token_cost(tokens as int) <= tokens,
        (spec_token_cost(tokens as int) == 0) == (tokens == 0),
        spec_token_cost(tokens as int) <= spec_token_cost(more as int),
        spec_token_cost(tokens as int) * 1000 >= tokens,
{
    assert(spec_token_cost(tokens as int) <= spec_token_cost(more as int)) by (nonlinear_arith)
        requires tokens <= more;
    assert(spec_token_cost(tokens as int) * 1000 >= tokens) by (nonlinear_arith);
}

} // verus!
