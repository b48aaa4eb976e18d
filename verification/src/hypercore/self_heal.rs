//! Self-healing: circuit breaker, failure classification, recovery strategies,
//! diagnosis, plan execution, verification and healing bookkeeping.
use vstd::prelude::*;
use crate::text::{bool_text, contains_str, dec, has_sub, push_dec, push_str, to_lowercase, lowercase};

verus! {

// ---------------------------------------------------------------------------
// Circuit breaker
// ---------------------------------------------------------------------------

/// Circuit breaker state.
#[derive(Debug, Clone, Copy, PartialEq, Eq, Structural)]
pub enum CircuitState {
    /// Normal operation: requests pass through.
    Closed,
    /// Failure threshold exceeded: requests are blocked.
    Open,
    /// Probing after the recovery timeout: requests are let through.
    HalfOpen,
}

/// Circuit breaker that tracks consecutive failures. Times are nanoseconds
/// since the Unix epoch.
#[derive(Debug, Clone)]
pub struct CircuitBreaker {
    pub state: CircuitState,
    pub failure_count: u64,
    pub failure_threshold: u64,
    pub recovery_timeout_secs: u64,
    pub last_failure_time: Option<i128>,
}

/// Nanoseconds from `last` to `now`, or zero when `now` is earlier.
pub open spec fn elapsed_ns(last: i128, now: i128) -> int {
    if now >= last {
        now - last
    } else {
        0
    }
}

/// The breaker state after `allow_request` at time `now`.
pub open spec fn admitted_state(cb: CircuitBreaker, now: i128) -> CircuitState {
    match cb.state {
        CircuitState::Open => match cb.last_failure_time {
            Some(t) => if elapsed_ns(t, now) >= cb.recovery_timeout_secs * 1_000_000_000 {
                CircuitState::HalfOpen
            } else {
                CircuitState::Open
            },
            None => CircuitState::Open,
        },
        s => s,
    }
}

impl CircuitBreaker {
    /// A closed breaker with the given thresholds, never failed.
    pub open spec fn new_spec(failure_threshold: u64, recovery_timeout_secs: u64) -> CircuitBreaker {
        CircuitBreaker {
            state: CircuitState::Closed,
            failure_count: 0,
            failure_threshold,
            recovery_timeout_secs,
            last_failure_time: None,
        }
    }

    /// Default breaker: 5 failures, 30 s recovery.
    pub fn new() -> (cb: Self)
        ensures
            cb.state == CircuitState::Closed,
            cb.failure_count == 0,
            cb.failure_threshold == 5,
            cb.recovery_timeout_secs == 30,
            cb.last_failure_time is None,
    {
        CircuitBreaker {
            state: CircuitState::Closed,
            failure_count: 0,
            failure_threshold: 5,
            recovery_timeout_secs: 30,
            last_failure_time: None,
        }
    }

    /// A closed breaker with the given thresholds.
    pub fn with_thresholds(failure_threshold: u64, recovery_timeout_secs: u64) -> (cb: Self)
        ensures
            cb.state == CircuitState::Closed,
            cb.failure_count == 0,
            cb.failure_threshold == failure_threshold,
            cb.recovery_timeout_secs == recovery_timeout_secs,
            cb.last_failure_time is None,
    {
        CircuitBreaker {
            state: CircuitState::Closed,
            failure_count: 0,
            failure_threshold,
            recovery_timeout_secs,
            last_failure_time: None,
        }
    }

    /// Whether a request may pass at time `now`; an open breaker whose recovery
    /// timeout has elapsed moves to half-open and lets the probe through.
    pub fn allow_request_at(&mut self, now: i128) -> (allowed: bool)
        ensures
            final(self).state == admitted_state(*old(self), now),
            final(self).failure_count == old(self).failure_count,
            final(self).failure_threshold == old(self).failure_threshold,
            final(self).recovery_timeout_secs == old(self).recovery_timeout_secs,
            final(self).last_failure_time == old(self).last_failure_time,
            allowed == (admitted_state(*old(self), now) != CircuitState::Open),
    {
        match self.state {
            CircuitState::Closed => true,
            CircuitState::HalfOpen => true,
            CircuitState::Open => {
                match self.last_failure_time {
                    Some(last) => {
                        let timeout_ns: i128 = self.recovery_timeout_secs as i128 * 1_000_000_000i128;
                        let reached: bool = if now >= last {
                            match now.checked_sub(last) {
                                Some(elapsed) => elapsed >= timeout_ns,
                                None => true,
                            }
                        } else {
                            timeout_ns == 0
                        };
                        if reached {
                            self.state = CircuitState::HalfOpen;
                            true
                        } else {
                            false
                        }
                    },
                    None => false,
                }
            },
        }
    }

    /// Whether a request may pass now (reads the clock). Closed and half-open
    /// breakers always allow; an open breaker that never failed never allows; an
    /// open breaker with a failure time either stays open and refuses, or moves to
    /// half-open and allows, depending on the clock.
    pub fn allow_request(&mut self) -> (allowed: bool)
        ensures
            exists|now: i128|
                final(self).state == admitted_state(*old(self), now) && allowed == (admitted_state(
                    *old(self),
                    now,
                ) != CircuitState::Open),
            final(self).failure_count == old(self).failure_count,
            final(self).failure_threshold == old(self).failure_threshold,
            final(self).recovery_timeout_secs == old(self).recovery_timeout_secs,
            final(self).last_failure_time == old(self).last_failure_time,
            old(self).state != CircuitState::Open ==> allowed && final(self).state == old(self).state,
            old(self).state == CircuitState::Open && old(self).last_failure_time is None ==> !allowed
                && final(self).state == CircuitState::Open,
    {
        let now = crate::clock::now_nanos();
        self.allow_request_at(now)
    }

    /// Record a success: resets the failure count and closes the circuit.
    pub fn record_success(&mut self)
        ensures
            final(self).state == CircuitState::Closed,
            final(self).failure_count == 0,
            final(self).last_failure_time is None,
            final(self).failure_threshold == old(self).failure_threshold,
            final(self).recovery_timeout_secs == old(self).recovery_timeout_secs,
    {
        self.failure_count = 0;
        self.state = CircuitState::Closed;
        self.last_failure_time = None;
    }

    /// Record a failure at time `now`: counts it, and opens the circuit when the
    /// threshold is reached or when a half-open probe failed.
    pub fn record_failure_at(&mut self, now: i128)
        requires
            old(self).failure_count < u64::MAX,
        ensures
            final(self).failure_count == old(self).failure_count + 1,
            final(self).last_failure_time == Some(now),
            final(self).failure_threshold == old(self).failure_threshold,
            final(self).recovery_timeout_secs == old(self).recovery_timeout_secs,
            final(self).state == (if final(self).failure_count >= old(self).failure_threshold
                || old(self).state == CircuitState::HalfOpen {
                CircuitState::Open
            } else {
                old(self).state
            }),
            *final(self) == failed_at(*old(self), now),
    {
        self.failure_count = self.failure_count + 1;
        self.last_failure_time = Some(now);
        if self.failure_count >= self.failure_threshold {
            self.state = CircuitState::Open;
        } else if self.state == CircuitState::HalfOpen {
            self.state = CircuitState::Open;
        }
    }

    /// Record a failure now (reads the clock for the failure time).
    pub fn record_failure(&mut self)
        requires
            old(self).failure_count < u64::MAX,
        ensures
            final(self).failure_count == old(self).failure_count + 1,
            final(self).last_failure_time is Some,
            final(self).failure_threshold == old(self).failure_threshold,
            final(self).recovery_timeout_secs == old(self).recovery_timeout_secs,
            final(self).state == (if final(self).failure_count >= old(self).failure_threshold
                || old(self).state == CircuitState::HalfOpen {
                CircuitState::Open
            } else {
                old(self).state
            }),
    {
        let now = crate::clock::now_nanos();
        self.record_failure_at(now)
    }
}

/// The breaker after a failure at `now`: one more failure, and open once the count
/// reaches the threshold or when a half-open probe failed.
pub open spec fn failed_at(cb: CircuitBreaker, now: i128) -> CircuitBreaker {
    CircuitBreaker {
        state: if cb.failure_count + 1 >= cb.failure_threshold || cb.state == CircuitState::HalfOpen {
            CircuitState::Open
        } else {
            cb.state
        },
        failure_count: (cb.failure_count + 1) as u64,
        last_failure_time: Some(now),
        ..cb
    }
}

/// The breaker after `n` failures at `now`.
pub open spec fn failed_times(cb: CircuitBreaker, n: nat, now: i128) -> CircuitBreaker
    decreases n,
{
    if n == 0 {
        cb
    } else {
        failed_at(failed_times(cb, (n - 1) as nat, now), now)
    }
}

/// A fresh breaker with threshold `t` stays closed through its first `t - 1`
/// consecutive failures and opens at the `t`-th.
pub proof fn lemma_breaker_trips_at_threshold(t: u64, timeout: u64, now: i128, k: nat)
    requires
        t >= 1,
        k <= t,
    ensures
        failed_times(CircuitBreaker::new_spec(t, timeout), k, now).failure_count == k,
        failed_times(CircuitBreaker::new_spec(t, timeout), k, now).failure_threshold == t,
        k < t ==> failed_times(CircuitBreaker::new_spec(t, timeout), k, now).state == CircuitState::Closed,
        k == t ==> failed_times(CircuitBreaker::new_spec(t, timeout), k, now).state == CircuitState::Open,
    decreases k,
{
    if k > 0 {
        lemma_breaker_trips_at_threshold(t, timeout, now, (k - 1) as nat);
        let prev = failed_times(CircuitBreaker::new_spec(t, timeout), (k - 1) as nat, now);
        assert(failed_times(CircuitBreaker::new_spec(t, timeout), k, now) == failed_at(prev, now));
    }
}

/// An open breaker refuses requests until its recovery timeout has passed since
/// the last failure, and admits a probe (half-open) once it has.
pub proof fn lemma_open_breaker_waits(cb: CircuitBreaker, now: i128)
    requires
        cb.state == CircuitState::Open,
        cb.last_failure_time is Some,
    ensures
        elapsed_ns(cb.last_failure_time->0, now) < cb.recovery_timeout_secs * 1_000_000_000 ==> admitted_state(cb, now)
            == CircuitState::Open,
        elapsed_ns(cb.last_failure_time->0, now) >= cb.recovery_timeout_secs * 1_000_000_000 ==> admitted_state(cb, now)
            == CircuitState::HalfOpen,
{
}

/// Closed and half-open breakers admit every request and keep their state.
pub proof fn lemma_non_open_breaker_admits(cb: CircuitBreaker, now: i128)
    requires
        cb.state != CircuitState::Open,
    ensures
        admitted_state(cb, now) == cb.state,
{
}

/// A failed half-open probe reopens the breaker, whatever the count.
pub proof fn lemma_failed_probe_reopens(cb: CircuitBreaker, now: i128)
    requires
        cb.state == CircuitState::HalfOpen,
    ensures
        failed_at(cb, now).state == CircuitState::Open,
{
}

impl Default for CircuitBreaker {
    fn default() -> (cb: Self)
        ensures
            cb.state == CircuitState::Closed,
            cb.failure_count == 0,
            cb.failure_threshold == 5,
            cb.recovery_timeout_secs == 30,
            cb.last_failure_time is None,
    {
        Self::new()
    }
}


// ---------------------------------------------------------------------------
// Failure classification
// ---------------------------------------------------------------------------

/// Classification of a failure.
#[derive(Debug, Clone, Copy, PartialEq, Eq, Structural)]
pub enum FailureClass {
    /// May succeed on retry (timeout, rate limit, ...).
    Transient,
    /// Will not succeed on retry (config error, invalid state, ...).
    Permanent,
}

/// Lowercase fragments that mark a failure as transient.
pub open spec fn transient_patterns() -> Seq<Seq<char>> {
    seq![
        "timeout"@,
        "timed out"@,
        "rate limit"@,
        "too many requests"@,
        "connection refused"@,
        "connection reset"@,
        "temporarily unavailable"@,
        "server error"@,
        "500"@,
        "502"@,
        "503"@,
        "504"@,
        "service unavailable"@,
        "throttled"@,
        "retry later"@,
        "network error"@,
        "eagain"@,
        "would block"@,
        "broken pipe"@
    ]
}

/// Classification of an already lowercased error text.
pub open spec fn class_of_lowered(lower: Seq<char>) -> FailureClass {
    if exists|i: int| 0 <= i < transient_patterns().len() && has_sub(lower, #[trigger] transient_patterns()[i]) {
        FailureClass::Transient
    } else {
        FailureClass::Permanent
    }
}

fn transient_pattern(i: usize) -> (p: &'static str)
    requires
        i < 19,
    ensures
        p@ == transient_patterns()[i as int],
{
    match i {
        0 => "timeout",
        1 => "timed out",
        2 => "rate limit",
        3 => "too many requests",
        4 => "connection refused",
        5 => "connection reset",
        6 => "temporarily unavailable",
        7 => "server error",
        8 => "500",
        9 => "502",
        10 => "503",
        11 => "504",
        12 => "service unavailable",
        13 => "throttled",
        14 => "retry later",
        15 => "network error",
        16 => "eagain",
        17 => "would block",
        _ => "broken pipe",
    }
}

/// Classifies an error text that is already lowercase: transient when it contains
/// one of the transient fragments.
pub fn classify_lowered(lower: &str) -> (c: FailureClass)
    ensures
        c == class_of_lowered(lower@),
{
    assert(transient_patterns().len() == 19);
    let mut i: usize = 0;
    while i < 19
        invariant
            i <= 19,
            transient_patterns().len() == 19,
            forall|j: int| 0 <= j < i ==> !has_sub(lower@, #[trigger] transient_patterns()[j]),
        decreases 19 - i,
    {
        if contains_str(lower, transient_pattern(i)) {
            return FailureClass::Transient;
        }
        i = i + 1;
    }
    FailureClass::Permanent
}

proof fn lemma_transient_pattern_list()
    ensures
        transient_patterns().len() == 19,
        transient_patterns()[0] == "timeout"@,
        transient_patterns()[1] == "timed out"@,
        transient_patterns()[2] == "rate limit"@,
        transient_patterns()[3] == "too many requests"@,
        transient_patterns()[4] == "connection refused"@,
        transient_patterns()[5] == "connection reset"@,
        transient_patterns()[6] == "temporarily unavailable"@,
        transient_patterns()[7] == "server error"@,
        transient_patterns()[8] == "500"@,
        transient_patterns()[9] == "502"@,
        transient_patterns()[10] == "503"@,
        transient_patterns()[11] == "504"@,
        transient_patterns()[12] == "service unavailable"@,
        transient_patterns()[13] == "throttled"@,
        transient_patterns()[14] == "retry later"@,
        transient_patterns()[15] == "network error"@,
        transient_patterns()[16] == "eagain"@,
        transient_patterns()[17] == "would block"@,
        transient_patterns()[18] == "broken pipe"@,
{
}

/// A lowercased error text is transient exactly when it contains one of the
/// fragments timeout, timed out, rate limit, too many requests, connection refused,
/// connection reset, temporarily unavailable, server error, 500, 502, 503, 504,
/// service unavailable, throttled, retry later, network error, eagain, would block
/// or broken pipe; every other text is permanent.
pub proof fn lemma_transient_fragments(lower: Seq<char>)
    ensures
        class_of_lowered(lower) == FailureClass::Transient <==> (has_sub(lower, "timeout"@)
            || has_sub(lower, "timed out"@)
            || has_sub(lower, "rate limit"@)
            || has_sub(lower, "too many requests"@)
            || has_sub(lower, "connection refused"@)
            || has_sub(lower, "connection reset"@)
            || has_sub(lower, "temporarily unavailable"@)
            || has_sub(lower, "server error"@)
            || has_sub(lower, "500"@)
            || has_sub(lower, "502"@)
            || has_sub(lower, "503"@)
            || has_sub(lower, "504"@)
            || has_sub(lower, "service unavailable"@)
            || has_sub(lower, "throttled"@)
            || has_sub(lower, "retry later"@)
            || has_sub(lower, "network error"@)
            || has_sub(lower, "eagain"@)
            || has_sub(lower, "would block"@)
            || has_sub(lower, "broken pipe"@)),
        class_of_lowered(lower) == FailureClass::Permanent <==> !(has_sub(lower, "timeout"@)
            || has_sub(lower, "timed out"@)
            || has_sub(lower, "rate limit"@)
            || has_sub(lower, "too many requests"@)
            || has_sub(lower, "connection refused"@)
            || has_sub(lower, "connection reset"@)
            || has_sub(lower, "temporarily unavailable"@)
            || has_sub(lower, "server error"@)
            || has_sub(lower, "500"@)
            || has_sub(lower, "502"@)
            || has_sub(lower, "503"@)
            || has_sub(lower, "504"@)
            || has_sub(lower, "service unavailable"@)
            || has_sub(lower, "throttled"@)
            || has_sub(lower, "retry later"@)
            || has_sub(lower, "network error"@)
            || has_sub(lower, "eagain"@)
            || has_sub(lower, "would block"@)
            || has_sub(lower, "broken pipe"@)),
{
    lemma_transient_pattern_list();
    let tp = transient_patterns();
    if class_of_lowered(lower) == FailureClass::Transient {
        let i = choose|i: int| 0 <= i < tp.len() && has_sub(lower, #[trigger] tp[i]);
        assert(0 <= i < 19);
    }
    if has_sub(lower, "timeout"@) {
        assert(has_sub(lower, tp[0]));
    }
    if has_sub(lower, "timed out"@) {
        assert(has_sub(lower, tp[1]));
    }
    if has_sub(lower, "rate limit"@) {
        assert(has_sub(lower, tp[2]));
    }
    if has_sub(lower, "too many requests"@) {
        assert(has_sub(lower, tp[3]));
    }
    if has_sub(lower, "connection refused"@) {
        assert(has_sub(lower, tp[4]));
    }
    if has_sub(lower, "connection reset"@) {
        assert(has_sub(lower, tp[5]));
    }
    if has_sub(lower, "temporarily unavailable"@) {
        assert(has_sub(lower, tp[6]));
    }
    if has_sub(lower, "server error"@) {
        assert(has_sub(lower, tp[7]));
    }
    if has_sub(lower, "500"@) {
        assert(has_sub(lower, tp[8]));
    }
    if has_sub(lower, "502"@) {
        assert(has_sub(lower, tp[9]));
    }
    if has_sub(lower, "503"@) {
        assert(has_sub(lower, tp[10]));
    }
    if has_sub(lower, "504"@) {
        assert(has_sub(lower, tp[11]));
    }
    if has_sub(lower, "service unavailable"@) {
        assert(has_sub(lower, tp[12]));
    }
    if has_sub(lower, "throttled"@) {
        assert(has_sub(lower, tp[13]));
    }
    if has_sub(lower, "retry later"@) {
        assert(has_sub(lower, tp[14]));
    }
    if has_sub(lower, "network error"@) {
        assert(has_sub(lower, tp[15]));
    }
    if has_sub(lower, "eagain"@) {
        assert(has_sub(lower, tp[16]));
    }
    if has_sub(lower, "would block"@) {
        assert(has_sub(lower, tp[17]));
    }
    if has_sub(lower, "broken pipe"@) {
        assert(has_sub(lower, tp[18]));
    }
}

/// Default failure classifier: `Transient` when the lowercased error contains a
/// transient fragment, `Permanent` otherwise.
pub fn default_classify(error: &str) -> (c: FailureClass)
    ensures
        c == class_of_lowered(lowercase(error@)),
{
    let lower = to_lowercase(error);
    classify_lowered(lower.as_str())
}


// ---------------------------------------------------------------------------
// Results and recovery strategies
// ---------------------------------------------------------------------------

/// Result of a healing operation.
#[derive(Debug, Clone)]
pub struct HealingResult {
    pub action: String,
    pub success: bool,
    pub message: String,
    pub duration_ms: u64,
}

impl HealingResult {
    /// A copy of this result.
    pub fn duplicate(&self) -> (r: HealingResult)
        ensures
            r.action@ == self.action@,
            r.success == self.success,
            r.message@ == self.message@,
            r.duration_ms == self.duration_ms,
    {
        HealingResult {
            action: self.action.clone(),
            success: self.success,
            message: self.message.clone(),
            duration_ms: self.duration_ms,
        }
    }
}

/// A recovery strategy that can be applied to a target.
#[derive(Debug, Clone)]
pub enum RecoveryStrategy {
    /// Restart the target with exponential backoff.
    RestartWithBackoff { target: String, initial_delay_ms: u64, max_delay_ms: u64 },
    /// Scale up the target by adding replicas.
    ScaleUp { target: String, additional_replicas: u32 },
    /// Clear a cache or temporary state.
    ClearCache { target: String, cache_key: Option<String> },
    /// Roll back to a last-known-good version.
    RollbackToLastGood { target: String, version: Option<String> },
}

/// A recovery strategy with its texts as character sequences.
pub enum StrategyModel {
    RestartWithBackoff { target: Seq<char>, initial_delay_ms: u64, max_delay_ms: u64 },
    ScaleUp { target: Seq<char>, additional_replicas: u32 },
    ClearCache { target: Seq<char>, cache_key: Option<Seq<char>> },
    RollbackToLastGood { target: Seq<char>, version: Option<Seq<char>> },
}

/// The characters of an optional string.
pub open spec fn opt_view(o: Option<String>) -> Option<Seq<char>> {
    match o {
        Some(s) => Some(s@),
        None => None,
    }
}

impl View for RecoveryStrategy {
    type V = StrategyModel;

    open spec fn view(&self) -> StrategyModel {
        match *self {
            RecoveryStrategy::RestartWithBackoff { target, initial_delay_ms, max_delay_ms } =>
                StrategyModel::RestartWithBackoff { target: target@, initial_delay_ms, max_delay_ms },
            RecoveryStrategy::ScaleUp { target, additional_replicas } => StrategyModel::ScaleUp {
                target: target@,
                additional_replicas,
            },
            RecoveryStrategy::ClearCache { target, cache_key } => StrategyModel::ClearCache {
                target: target@,
                cache_key: opt_view(cache_key),
            },
            RecoveryStrategy::RollbackToLastGood { target, version } =>
                StrategyModel::RollbackToLastGood { target: target@, version: opt_view(version) },
        }
    }
}

/// Backoff actually waited by a restart: the smaller of the two delays.
pub open spec fn restart_delay(initial: u64, max: u64) -> u64 {
    if initial <= max {
        initial
    } else {
        max
    }
}

/// An optional text, or a fallback when absent.
pub open spec fn or_text(o: Option<Seq<char>>, fallback: Seq<char>) -> Seq<char> {
    match o {
        Some(t) => t,
        None => fallback,
    }
}

/// The action name a strategy reports.
pub open spec fn strategy_action(m: StrategyModel) -> Seq<char> {
    match m {
        StrategyModel::RestartWithBackoff { target, .. } => "restart_with_backoff("@ + target + ")"@,
        StrategyModel::ScaleUp { target, additional_replicas } => "scale_up("@ + target + ",+"@ + dec(
            additional_replicas as nat,
        ) + ")"@,
        StrategyModel::ClearCache { target, cache_key } => "clear_cache("@ + target + ", "@ + or_text(
            cache_key,
            "all"@,
        ) + ")"@,
        StrategyModel::RollbackToLastGood { target, version } => "rollback("@ + target + ", "@ + or_text(
            version,
            "last-good"@,
        ) + ")"@,
    }
}

/// The message a strategy reports.
pub open spec fn strategy_message(m: StrategyModel) -> Seq<char> {
    match m {
        StrategyModel::RestartWithBackoff { target, initial_delay_ms, max_delay_ms } =>
            "Restart initiated for "@ + target + " with "@ + dec(
                restart_delay(initial_delay_ms, max_delay_ms) as nat,
            ) + "ms backoff"@,
        StrategyModel::ScaleUp { target, additional_replicas } => "Scaled up "@ + target + " by "@
            + dec(additional_replicas as nat) + " replica(s)"@,
        StrategyModel::ClearCache { target, cache_key } => "Cache cleared for "@ + target
            + " (key: "@ + or_text(cache_key, "all"@) + ")"@,
        StrategyModel::RollbackToLastGood { target, version } => "Rolled back "@ + target
            + " to version "@ + or_text(version, "last-good"@),
    }
}

/// The pause a strategy takes before reporting, in milliseconds.
pub open spec fn strategy_pause(m: StrategyModel) -> u64 {
    match m {
        StrategyModel::RestartWithBackoff { initial_delay_ms, max_delay_ms, .. } => {
            let d = restart_delay(initial_delay_ms, max_delay_ms);
            if d <= 500 {
                d
            } else {
                500
            }
        },
        _ => 0,
    }
}

impl RecoveryStrategy {
    /// Estimated duration of this strategy (for planning).
    pub fn estimated_duration_ms(&self) -> (d: u64)
        ensures
            d == match self@ {
                StrategyModel::RestartWithBackoff { initial_delay_ms, .. } => initial_delay_ms,
                StrategyModel::ScaleUp { .. } => 2000,
                StrategyModel::ClearCache { .. } => 500,
                StrategyModel::RollbackToLastGood { .. } => 5000,
            },
    {
        match self {
            RecoveryStrategy::RestartWithBackoff { initial_delay_ms, .. } => *initial_delay_ms,
            RecoveryStrategy::ScaleUp { .. } => 2000,
            RecoveryStrategy::ClearCache { .. } => 500,
            RecoveryStrategy::RollbackToLastGood { .. } => 5000,
        }
    }

    /// How long executing this strategy waits before it reports (a restart waits
    /// its backoff, capped at 500 ms; other strategies do not wait).
    pub fn pause_ms(&self) -> (d: u64)
        ensures
            d == strategy_pause(self@),
    {
        match self {
            RecoveryStrategy::RestartWithBackoff { initial_delay_ms, max_delay_ms, .. } => {
                let d = if *initial_delay_ms <= *max_delay_ms {
                    *initial_delay_ms
                } else {
                    *max_delay_ms
                };
                if d <= 500 {
                    d
                } else {
                    500
                }
            },
            _ => 0,
        }
    }

    /// The result of executing this strategy, which took `duration_ms`: every
    /// strategy reports success with its action and message.
    pub fn outcome(&self, duration_ms: u64) -> (r: HealingResult)
        ensures
            r.success,
            r.action@ == strategy_action(self@),
            r.message@ == strategy_message(self@),
            r.duration_ms == duration_ms,
    {
        let mut action = String::new();
        let mut message = String::new();
        match self {
            RecoveryStrategy::RestartWithBackoff { target, initial_delay_ms, max_delay_ms } => {
                let delay = if *initial_delay_ms <= *max_delay_ms {
                    *initial_delay_ms
                } else {
                    *max_delay_ms
                };
                push_str(&mut action, "restart_with_backoff(");
                push_str(&mut action, target.as_str());
                push_str(&mut action, ")");
                push_str(&mut message, "Restart initiated for ");
                push_str(&mut message, target.as_str());
                push_str(&mut message, " with ");
                push_dec(&mut message, delay);
                push_str(&mut message, "ms backoff");
            },
            RecoveryStrategy::ScaleUp { target, additional_replicas } => {
                push_str(&mut action, "scale_up(");
                push_str(&mut action, target.as_str());
                push_str(&mut action, ",+");
                push_dec(&mut action, *additional_replicas as u64);
                push_str(&mut action, ")");
                push_str(&mut message, "Scaled up ");
                push_str(&mut message, target.as_str());
                push_str(&mut message, " by ");
                push_dec(&mut message, *additional_replicas as u64);
                push_str(&mut message, " replica(s)");
            },
            RecoveryStrategy::ClearCache { target, cache_key } => {
                let key: &str = match cache_key {
                    Some(k) => k.as_str(),
                    None => "all",
                };
                push_str(&mut action, "clear_cache(");
                push_str(&mut action, target.as_str());
                push_str(&mut action, ", ");
                push_str(&mut action, key);
                push_str(&mut action, ")");
                push_str(&mut message, "Cache cleared for ");
                push_str(&mut message, target.as_str());
                push_str(&mut message, " (key: ");
                push_str(&mut message, key);
                push_str(&mut message, ")");
            },
            RecoveryStrategy::RollbackToLastGood { target, version } => {
                let ver: &str = match version {
                    Some(v) => v.as_str(),
                    None => "last-good",
                };
                push_str(&mut action, "rollback(");
                push_str(&mut action, target.as_str());
                push_str(&mut action, ", ");
                push_str(&mut action, ver);
                push_str(&mut action, ")");
                push_str(&mut message, "Rolled back ");
                push_str(&mut message, target.as_str());
                push_str(&mut message, " to version ");
                push_str(&mut message, ver);
            },
        }
        HealingResult { action, success: true, message, duration_ms }
    }
}


// ---------------------------------------------------------------------------
// Health check and verification
// ---------------------------------------------------------------------------

/// Simple health check result.
#[derive(Debug, Clone)]
pub enum HealthStatus {
    Healthy,
    Unhealthy { reason: String },
    Unknown { reason: String },
}

/// Health check of a target: an empty target is unhealthy, any other is healthy.
pub fn health_check(target: &str) -> (h: HealthStatus)
    ensures
        target@.len() == 0 ==> (h matches HealthStatus::Unhealthy { reason } && reason@ == "Empty target"@),
        target@.len() != 0 ==> h is Healthy,
{
    if target.is_empty() {
        return HealthStatus::Unhealthy { reason: "Empty target".to_owned() };
    }
    HealthStatus::Healthy
}

/// The message of a post-healing health check.
pub open spec fn verify_message(target: Seq<char>, issue: Seq<char>) -> Seq<char> {
    if target.len() == 0 {
        "Health check FAILED for "@ + target + " after '"@ + issue + "': "@ + "Empty target"@
    } else {
        "Health check passed for "@ + target + " after '"@ + issue + "'"@
    }
}

/// Verify a healing by health-checking the target: succeeds exactly when the
/// target is healthy (non-empty).
pub fn verify_healing(target: &str, original_issue: &str) -> (r: HealingResult)
    ensures
        r.action@ == "verify("@ + target@ + ")"@,
        r.success == (target@.len() != 0),
        r.message@ == verify_message(target@, original_issue@),
{
    let start = crate::clock::instant_now();
    let status = health_check(target);
    let mut action = String::new();
    push_str(&mut action, "verify(");
    push_str(&mut action, target);
    push_str(&mut action, ")");
    let mut message = String::new();
    let success = match status {
        HealthStatus::Healthy => {
            push_str(&mut message, "Health check passed for ");
            push_str(&mut message, target);
            push_str(&mut message, " after '");
            push_str(&mut message, original_issue);
            push_str(&mut message, "'");
            true
        },
        HealthStatus::Unhealthy { reason } => {
            push_str(&mut message, "Health check FAILED for ");
            push_str(&mut message, target);
            push_str(&mut message, " after '");
            push_str(&mut message, original_issue);
            push_str(&mut message, "': ");
            push_str(&mut message, reason.as_str());
            false
        },
        HealthStatus::Unknown { reason } => {
            push_str(&mut message, "Health check UNKNOWN for ");
            push_str(&mut message, target);
            push_str(&mut message, " after '");
            push_str(&mut message, original_issue);
            push_str(&mut message, "': ");
            push_str(&mut message, reason.as_str());
            false
        },
    };
    let duration_ms = crate::clock::elapsed_millis(&start);
    HealingResult { action, success, message, duration_ms }
}

// ---------------------------------------------------------------------------
// Diagnosis and plans
// ---------------------------------------------------------------------------

/// A plan produced by the diagnosis phase.
#[derive(Debug, Clone)]
pub struct HealingPlan {
    pub target: String,
    pub issue: String,
    pub strategies: Vec<RecoveryStrategy>,
    pub failure_class: FailureClass,
}

impl HealingPlan {
    /// The strategies of the plan as models.
    pub open spec fn strategy_models(&self) -> Seq<StrategyModel> {
        self.strategies@.map_values(|s: RecoveryStrategy| s@)
    }

    /// A plan is actionable when it has at least one strategy.
    pub fn is_actionable(&self) -> (b: bool)
        ensures
            b == (self.strategies.len() > 0),
    {
        self.strategies.len() != 0
    }
}

/// Timeouts and connection problems call for a restart.
pub open spec fn wants_restart(lower: Seq<char>) -> bool {
    has_sub(lower, "timeout"@) || has_sub(lower, "connection"@)
}

/// Rate limiting calls for scaling up.
pub open spec fn wants_scale_up(lower: Seq<char>) -> bool {
    has_sub(lower, "rate limit"@) || has_sub(lower, "too many"@)
}

/// Cache problems call for clearing the cache.
pub open spec fn wants_clear_cache(lower: Seq<char>) -> bool {
    has_sub(lower, "cache"@) || has_sub(lower, "stale"@)
}

/// Version problems call for a rollback.
pub open spec fn wants_rollback(lower: Seq<char>) -> bool {
    has_sub(lower, "version"@) || has_sub(lower, "mismatch"@) || has_sub(lower, "corrupt"@)
}

/// Some recovery strategy recognizes the lowercased issue (else diagnosis falls
/// back to a blind restart).
pub open spec fn recognized_issue(lower: Seq<char>) -> bool {
    wants_restart(lower) || wants_scale_up(lower) || wants_clear_cache(lower) || wants_rollback(lower)
}

/// A lowercased issue is recognized by some recovery strategy exactly when it
/// mentions a timeout, a connection, a rate limit, too many (requests), a cache,
/// stale data, a version, a mismatch or corruption.
pub proof fn lemma_recognized_issue_keywords(lower: Seq<char>)
    ensures
        recognized_issue(lower) <==> (has_sub(lower, "timeout"@) || has_sub(lower, "connection"@) || has_sub(
            lower,
            "rate limit"@,
        ) || has_sub(lower, "too many"@) || has_sub(lower, "cache"@) || has_sub(lower, "stale"@) || has_sub(
            lower,
            "version"@,
        ) || has_sub(lower, "mismatch"@) || has_sub(lower, "corrupt"@)),
{
}

/// Whether some recovery strategy recognizes `issue`, lowercased (see
/// `recognized_issue`).
pub fn recognizes(issue: &str) -> (b: bool)
    ensures
        b == recognized_issue(lowercase(issue@)),
{
    let low = to_lowercase(issue);
    recognizes_lowered(low.as_str())
}

/// Whether some recovery strategy recognizes an already lowercased issue.
pub fn recognizes_lowered(lower: &str) -> (b: bool)
    ensures
        b == recognized_issue(lower@),
{
    contains_str(lower, "timeout") || contains_str(lower, "connection") || contains_str(lower, "rate limit")
        || contains_str(lower, "too many") || contains_str(lower, "cache") || contains_str(lower, "stale")
        || contains_str(lower, "version") || contains_str(lower, "mismatch") || contains_str(lower, "corrupt")
}

/// Why a fallback pipeline that claims success on an unrecognized issue counts as
/// failed.
pub open spec fn unrecognized_message(issue: Seq<char>) -> Seq<char> {
    "no recovery strategy recognizes '"@ + issue + "'"@
}

/// The strategies chosen for a target and a lowercased issue, in this order:
/// restart (500 ms / 15 s), scale up (+2), clear cache (all), roll back (last good);
/// when none applies, a single restart (1 s / 30 s).
pub open spec fn planned_strategies(target: Seq<char>, lower: Seq<char>) -> Seq<StrategyModel> {
    let s1 = if wants_restart(lower) {
        seq![StrategyModel::RestartWithBackoff { target, initial_delay_ms: 500, max_delay_ms: 15000 }]
    } else {
        Seq::empty()
    };
    let s2 = if wants_scale_up(lower) {
        s1.push(StrategyModel::ScaleUp { target, additional_replicas: 2 })
    } else {
        s1
    };
    let s3 = if wants_clear_cache(lower) {
        s2.push(StrategyModel::ClearCache { target, cache_key: None })
    } else {
        s2
    };
    let s4 = if wants_rollback(lower) {
        s3.push(StrategyModel::RollbackToLastGood { target, version: None })
    } else {
        s3
    };
    if s4.len() == 0 {
        seq![StrategyModel::RestartWithBackoff { target, initial_delay_ms: 1000, max_delay_ms: 30000 }]
    } else {
        s4
    }
}

/// Which recovery strategies a diagnosis plans for a target and a lowercased issue:
/// a restart with backoff from 500 ms up to 15 s exactly when the issue mentions a
/// timeout or a connection; two more replicas exactly when it mentions a rate limit
/// or too many (requests); a full cache clear exactly when it mentions a cache or
/// stale data; a rollback to the last good version exactly when it mentions a
/// version, a mismatch or corruption; and the blind restart from 1 s up to 30 s
/// exactly when it mentions none of these, in which case it is the only strategy.
pub proof fn lemma_planned_strategies_follow_keywords(target: Seq<char>, lower: Seq<char>)
    ensures
        ({
            let plan = planned_strategies(target, lower);
            let restart = has_sub(lower, "timeout"@) || has_sub(lower, "connection"@);
            let scale = has_sub(lower, "rate limit"@) || has_sub(lower, "too many"@);
            let cache = has_sub(lower, "cache"@) || has_sub(lower, "stale"@);
            let rollback = has_sub(lower, "version"@) || has_sub(lower, "mismatch"@) || has_sub(lower, "corrupt"@);
            &&& plan.len() >= 1
            &&& plan.contains(StrategyModel::RestartWithBackoff { target, initial_delay_ms: 500, max_delay_ms: 15000 }) <==> restart
            &&& plan.contains(StrategyModel::ScaleUp { target, additional_replicas: 2 }) <==> scale
            &&& plan.contains(StrategyModel::ClearCache { target, cache_key: None }) <==> cache
            &&& plan.contains(StrategyModel::RollbackToLastGood { target, version: None }) <==> rollback
            &&& plan.contains(StrategyModel::RestartWithBackoff { target, initial_delay_ms: 1000, max_delay_ms: 30000 })
                <==> !(restart || scale || cache || rollback)
            &&& !(restart || scale || cache || rollback) ==> plan == seq![
                StrategyModel::RestartWithBackoff { target, initial_delay_ms: 1000, max_delay_ms: 30000 },
            ]
        }),
{
    let plan = planned_strategies(target, lower);
    let r = StrategyModel::RestartWithBackoff { target, initial_delay_ms: 500, max_delay_ms: 15000 };
    let u = StrategyModel::ScaleUp { target, additional_replicas: 2 };
    let c = StrategyModel::ClearCache { target, cache_key: None };
    let b = StrategyModel::RollbackToLastGood { target, version: None };
    let f = StrategyModel::RestartWithBackoff { target, initial_delay_ms: 1000, max_delay_ms: 30000 };
    let w1 = wants_restart(lower);
    let w2 = wants_scale_up(lower);
    let w3 = wants_clear_cache(lower);
    let w4 = wants_rollback(lower);
    let i1: int = if w1 { 1 } else { 0 };
    let i2: int = i1 + if w2 { 1int } else { 0int };
    let i3: int = i2 + if w3 { 1int } else { 0int };
    let i4: int = i3 + if w4 { 1int } else { 0int };
    if w1 || w2 || w3 || w4 {
        assert(plan.len() == i4);
        assert(forall|k: int| 0 <= k < plan.len() ==> (k < i1 ==> plan[k] == r) && (i1 <= k < i2 ==> plan[k] == u)
            && (i2 <= k < i3 ==> plan[k] == c) && (i3 <= k < i4 ==> plan[k] == b));
        if w1 {
            assert(plan[0] == r);
        }
        if w2 {
            assert(plan[i1] == u);
        }
        if w3 {
            assert(plan[i2] == c);
        }
        if w4 {
            assert(plan[i3] == b);
        }
    } else {
        assert(plan == seq![f]);
        assert(plan[0] == f);
    }
}

/// Diagnosis of an issue on a target: classifies the issue and chooses recovery
/// strategies from the lowercased issue text.
pub fn diagnose(target: &str, issue: &str) -> (plan: HealingPlan)
    ensures
        plan.target@ == target@,
        plan.issue@ == issue@,
        plan.failure_class == class_of_lowered(lowercase(issue@)),
        plan.strategy_models() == planned_strategies(target@, lowercase(issue@)),
        plan.strategies.len() > 0,
{
    let cls = default_classify(issue);
    let lower_s = to_lowercase(issue);
    let strategies = strategies_for(target, lower_s.as_str());
    let plan = HealingPlan {
        target: target.to_owned(),
        issue: issue.to_owned(),
        strategies,
        failure_class: cls,
    };
    plan
}

/// The recovery strategies for a target and an already lowercased issue (see
/// `planned_strategies`).
pub fn strategies_for(target: &str, lower: &str) -> (strategies: Vec<RecoveryStrategy>)
    ensures
        strategies@.map_values(|s: RecoveryStrategy| s@) == planned_strategies(target@, lower@),
        strategies@.len() > 0,
{
    let ghost l = lower@;
    let mut strategies: Vec<RecoveryStrategy> = Vec::new();
    if contains_str(lower, "timeout") || contains_str(lower, "connection") {
        strategies.push(
            RecoveryStrategy::RestartWithBackoff {
                target: target.to_owned(),
                initial_delay_ms: 500,
                max_delay_ms: 15000,
            },
        );
    }
    let ghost g1 = strategies@.map_values(|s: RecoveryStrategy| s@);
    if contains_str(lower, "rate limit") || contains_str(lower, "too many") {
        strategies.push(RecoveryStrategy::ScaleUp { target: target.to_owned(), additional_replicas: 2 });
        assert(strategies@.map_values(|s: RecoveryStrategy| s@) =~= g1.push(
            StrategyModel::ScaleUp { target: target@, additional_replicas: 2 },
        ));
    }
    let ghost g2 = strategies@.map_values(|s: RecoveryStrategy| s@);
    if contains_str(lower, "cache") || contains_str(lower, "stale") {
        strategies.push(RecoveryStrategy::ClearCache { target: target.to_owned(), cache_key: None });
        assert(strategies@.map_values(|s: RecoveryStrategy| s@) =~= g2.push(
            StrategyModel::ClearCache { target: target@, cache_key: None },
        ));
    }
    let ghost g3 = strategies@.map_values(|s: RecoveryStrategy| s@);
    if contains_str(lower, "version") || contains_str(lower, "mismatch") || contains_str(
        lower,
        "corrupt",
    ) {
        strategies.push(
            RecoveryStrategy::RollbackToLastGood { target: target.to_owned(), version: None },
        );
        assert(strategies@.map_values(|s: RecoveryStrategy| s@) =~= g3.push(
            StrategyModel::RollbackToLastGood { target: target@, version: None },
        ));
    }
    if strategies.len() == 0 {
        strategies.push(
            RecoveryStrategy::RestartWithBackoff {
                target: target.to_owned(),
                initial_delay_ms: 1000,
                max_delay_ms: 30000,
            },
        );
    }
    assert(strategies@.map_values(|s: RecoveryStrategy| s@) =~= planned_strategies(target@, l));
    strategies
}


// ---------------------------------------------------------------------------
// Executing a plan and the healing pipeline
// ---------------------------------------------------------------------------

/// What to do next while executing a plan.
#[derive(Debug)]
pub enum PlanStep {
    /// Execute the strategy at this index and report its result.
    Run(usize),
    /// Plan execution is over with this result.
    Done(HealingResult),
}

/// Action reported by a plan execution.
pub open spec fn plan_action(target: Seq<char>) -> Seq<char> {
    "diagnose_and_heal("@ + target + ")"@
}

/// Message of a plan that healed with strategy `i` (0-based) out of `n`.
pub open spec fn plan_healed_message(
    target: Seq<char>,
    issue: Seq<char>,
    i: nat,
    n: nat,
    strategy_message: Seq<char>,
) -> Seq<char> {
    "Healed '"@ + target + "' for issue '"@ + issue + "' using strategy "@ + dec(i + 1) + "/"@ + dec(n)
        + ": "@ + strategy_message
}

/// Message of a plan whose strategies all failed.
pub open spec fn plan_failed_message(target: Seq<char>, issue: Seq<char>, n: nat) -> Seq<char> {
    "All "@ + dec(n) + " strategies failed for '"@ + target + "' (issue: "@ + issue + ")"@
}

impl HealingPlan {
    fn failed_result(&self, start: &std::time::Instant) -> (r: HealingResult)
        ensures
            !r.success,
            r.action@ == plan_action(self.target@),
            r.message@ == plan_failed_message(self.target@, self.issue@, self.strategies.len() as nat),
    {
        let mut action = String::new();
        push_str(&mut action, "diagnose_and_heal(");
        push_str(&mut action, self.target.as_str());
        push_str(&mut action, ")");
        let mut message = String::new();
        push_str(&mut message, "All ");
        push_dec(&mut message, self.strategies.len() as u64);
        push_str(&mut message, " strategies failed for '");
        push_str(&mut message, self.target.as_str());
        push_str(&mut message, "' (issue: ");
        push_str(&mut message, self.issue.as_str());
        push_str(&mut message, ")");
        HealingResult {
            action,
            success: false,
            message,
            duration_ms: crate::clock::elapsed_millis(start),
        }
    }

    /// First step of executing the plan (timed from `start`): run the first
    /// strategy, or report failure when there is none.
    pub fn first_step(&self, start: &std::time::Instant) -> (step: PlanStep)
        ensures
            self.strategies.len() > 0 ==> step == PlanStep::Run(0),
            self.strategies.len() == 0 ==> (step matches PlanStep::Done(r) && !r.success && r.action@
                == plan_action(self.target@) && r.message@ == plan_failed_message(
                self.target@,
                self.issue@,
                0,
            )),
    {
        if self.strategies.len() == 0 {
            PlanStep::Done(self.failed_result(start))
        } else {
            PlanStep::Run(0)
        }
    }

    /// Step after strategy `i` reported `outcome`: a success ends the plan as healed;
    /// a failure moves to the next strategy, or ends the plan as failed after the last.
    pub fn after_strategy(&self, i: usize, outcome: &HealingResult, start: &std::time::Instant) -> (step:
        PlanStep)
        requires
            i < self.strategies.len(),
        ensures
            outcome.success ==> (step matches PlanStep::Done(r) && r.success && r.action@ == plan_action(
                self.target@,
            ) && r.message@ == plan_healed_message(
                self.target@,
                self.issue@,
                i as nat,
                self.strategies.len() as nat,
                outcome.message@,
            )),
            !outcome.success && i + 1 < self.strategies.len() ==> step == PlanStep::Run((i + 1) as usize),
            !outcome.success && i + 1 == self.strategies.len() ==> (step matches PlanStep::Done(r)
                && !r.success && r.action@ == plan_action(self.target@) && r.message@
                == plan_failed_message(self.target@, self.issue@, self.strategies.len() as nat)),
    {
        if !outcome.success && i < self.strategies.len() - 1 {
            return PlanStep::Run(i + 1);
        }
        if outcome.success {
            let mut action = String::new();
            push_str(&mut action, "diagnose_and_heal(");
            push_str(&mut action, self.target.as_str());
            push_str(&mut action, ")");
            let mut message = String::new();
            push_str(&mut message, "Healed '");
            push_str(&mut message, self.target.as_str());
            push_str(&mut message, "' for issue '");
            push_str(&mut message, self.issue.as_str());
            push_str(&mut message, "' using strategy ");
            push_dec(&mut message, (i + 1) as u64);
            push_str(&mut message, "/");
            push_dec(&mut message, self.strategies.len() as u64);
            push_str(&mut message, ": ");
            push_str(&mut message, outcome.message.as_str());
            return PlanStep::Done(
                HealingResult {
                    action,
                    success: true,
                    message,
                    duration_ms: crate::clock::elapsed_millis(start),
                },
            );
        }
        PlanStep::Done(self.failed_result(start))
    }
}

/// Message of the healing pipeline once the plan has been executed successfully.
pub open spec fn pipeline_message(target: Seq<char>, issue: Seq<char>) -> Seq<char> {
    "Pipeline result for '"@ + issue + "' on '"@ + target + "': "@ + verify_message(target, issue)
}

/// First phase of the healing pipeline (timed from `start`): diagnose, and stop
/// with a failure when the plan has nothing to do.
pub fn pipeline_begin(target: &str, issue: &str, start: &std::time::Instant) -> (r: Result<
    HealingPlan,
    HealingResult,
>)
    ensures
        match r {
            Ok(plan) => plan.target@ == target@ && plan.issue@ == issue@ && plan.failure_class
                == class_of_lowered(lowercase(issue@)) && plan.strategy_models() == planned_strategies(
                target@,
                lowercase(issue@),
            ),
            Err(res) => !res.success && res.action@ == "healing_pipeline"@ && res.message@
                == "No actionable plan for '"@ + issue@ + "' on '"@ + target@ + "'"@,
        },
        r is Ok,
{
    let plan = diagnose(target, issue);
    if !plan.is_actionable() {
        let mut message = String::new();
        push_str(&mut message, "No actionable plan for '");
        push_str(&mut message, issue);
        push_str(&mut message, "' on '");
        push_str(&mut message, target);
        push_str(&mut message, "'");
        return Err(
            HealingResult {
                action: "healing_pipeline".to_owned(),
                success: false,
                message,
                duration_ms: crate::clock::elapsed_millis(start),
            },
        );
    }
    Ok(plan)
}

/// Last phase of the healing pipeline: a failed plan execution is the result;
/// otherwise the target is verified and the pipeline succeeds exactly when the
/// verification does.
pub fn pipeline_finish(target: &str, issue: &str, executed: HealingResult, start: &std::time::Instant) -> (r:
    HealingResult)
    ensures
        !executed.success ==> r == executed,
        executed.success ==> r.action@ == "healing_pipeline("@ + target@ + ")"@ && r.success == (
        target@.len() != 0) && r.message@ == pipeline_message(target@, issue@),
{
    if !executed.success {
        return executed;
    }
    let verify = verify_healing(target, issue);
    let mut action = String::new();
    push_str(&mut action, "healing_pipeline(");
    push_str(&mut action, target);
    push_str(&mut action, ")");
    let mut message = String::new();
    push_str(&mut message, "Pipeline result for '");
    push_str(&mut message, issue);
    push_str(&mut message, "' on '");
    push_str(&mut message, target);
    push_str(&mut message, "': ");
    push_str(&mut message, verify.message.as_str());
    HealingResult {
        action,
        success: verify.success,
        message,
        duration_ms: crate::clock::elapsed_millis(start),
    }
}


// ---------------------------------------------------------------------------
// Healing actions, events and healers
// ---------------------------------------------------------------------------

/// A healing action that can be applied.
#[derive(Debug, Clone)]
pub enum HealingAction {
    Restart { target: String },
    Recover { target: String, strategy: String },
    Scale { target: String, replicas: u32 },
    Clear { target: String },
    Rollback { target: String, version: String },
}

/// A healing event recorded in the event log (time in nanoseconds since the Unix
/// epoch).
#[derive(Debug, Clone)]
pub struct HealingEvent {
    pub id: u64,
    pub timestamp: i128,
    pub target: String,
    pub action: String,
    pub success: bool,
    pub details: String,
}

/// Whether `issue` contains one of `handled`.
pub open spec fn handles_any(handled: Seq<Seq<char>>, issue: Seq<char>) -> bool {
    exists|i: int| 0 <= i < handled.len() && has_sub(issue, #[trigger] handled[i])
}

fn strings_of(issues: &[&str]) -> (v: Vec<String>)
    ensures
        v@.map_values(|x: String| x@) == issues@.map_values(|x: &str| x@),
{
    let mut v: Vec<String> = Vec::new();
    let mut i: usize = 0;
    while i < issues.len()
        invariant
            i <= issues@.len(),
            v@.map_values(|x: String| x@) =~= issues@.map_values(|x: &str| x@).take(i as int),
        decreases issues@.len() - i,
    {
        v.push(issues[i].to_owned());
        assert(issues@.map_values(|x: &str| x@).take(i + 1) =~= issues@.map_values(|x: &str| x@).take(
            i as int,
        ).push(issues@[i as int]@));
        i = i + 1;
    }
    assert(issues@.map_values(|x: &str| x@).take(issues@.len() as int) =~= issues@.map_values(
        |x: &str| x@,
    ));
    v
}

fn any_contained(handled: &Vec<String>, issue: &str) -> (b: bool)
    ensures
        b == handles_any(handled@.map_values(|x: String| x@), issue@),
{
    let ghost hs = handled@.map_values(|x: String| x@);
    let mut i: usize = 0;
    while i < handled.len()
        invariant
            i <= handled.len(),
            hs == handled@.map_values(|x: String| x@),
            forall|j: int| 0 <= j < i ==> !has_sub(issue@, #[trigger] hs[j]),
        decreases handled.len() - i,
    {
        if contains_str(issue, handled[i].as_str()) {
            assert(has_sub(issue@, hs[i as int]));
            return true;
        }
        i = i + 1;
    }
    false
}

/// Generic healer for simple service recovery.
pub struct GenericHealer {
    name: String,
    handled_issues: Vec<String>,
}

impl GenericHealer {
    /// The healer's name.
    pub closed spec fn name_view(&self) -> Seq<char> {
        self.name@
    }

    /// The issue fragments this healer handles.
    pub closed spec fn issues_view(&self) -> Seq<Seq<char>> {
        self.handled_issues@.map_values(|x: String| x@)
    }

    pub fn new(name: &str, issues: &[&str]) -> (h: Self)
        ensures
            h.name_view() == name@,
            h.issues_view() == issues@.map_values(|x: &str| x@),
    {
        GenericHealer { name: name.to_owned(), handled_issues: strings_of(issues) }
    }

    pub fn name(&self) -> (n: &str)
        ensures
            n@ == self.name_view(),
    {
        self.name.as_str()
    }

    /// Handles an issue that contains one of its fragments.
    pub fn can_handle(&self, issue: &str) -> (b: bool)
        ensures
            b == handles_any(self.issues_view(), issue@),
    {
        any_contained(&self.handled_issues, issue)
    }

    /// Applies a generic recovery, which always succeeds.
    pub fn heal(&self, target: &str, issue: &str) -> (r: HealingResult)
        ensures
            r.success,
            r.action@ == "generic_recover("@ + target@ + ")"@,
            r.message@ == "Recovery action applied to "@ + target@,
            r.duration_ms == 0,
    {
        let mut action = String::new();
        push_str(&mut action, "generic_recover(");
        push_str(&mut action, target);
        push_str(&mut action, ")");
        let mut message = String::new();
        push_str(&mut message, "Recovery action applied to ");
        push_str(&mut message, target);
        HealingResult { action, success: true, message, duration_ms: 0 }
    }
}

/// A healer that runs the full healing pipeline.
pub struct PipelineHealer {
    name: String,
    handled_issues: Vec<String>,
}

impl PipelineHealer {
    /// The healer's name.
    pub closed spec fn name_view(&self) -> Seq<char> {
        self.name@
    }

    /// The issue fragments this healer handles.
    pub closed spec fn issues_view(&self) -> Seq<Seq<char>> {
        self.handled_issues@.map_values(|x: String| x@)
    }

    pub fn new(name: &str, issues: &[&str]) -> (h: Self)
        ensures
            h.name_view() == name@,
            h.issues_view() == issues@.map_values(|x: &str| x@),
    {
        PipelineHealer { name: name.to_owned(), handled_issues: strings_of(issues) }
    }

    pub fn name(&self) -> (n: &str)
        ensures
            n@ == self.name_view(),
    {
        self.name.as_str()
    }

    /// Handles an issue that contains one of its fragments.
    pub fn can_handle(&self, issue: &str) -> (b: bool)
        ensures
            b == handles_any(self.issues_view(), issue@),
    {
        any_contained(&self.handled_issues, issue)
    }
}


// ---------------------------------------------------------------------------
// Healing ledger: circuit breaker and event log of the healing controller
// ---------------------------------------------------------------------------

/// `new` is `old` after `record_success`.
pub open spec fn after_success(old: CircuitBreaker, new: CircuitBreaker) -> bool {
    &&& new.state == CircuitState::Closed
    &&& new.failure_count == 0
    &&& new.last_failure_time is None
    &&& new.failure_threshold == old.failure_threshold
    &&& new.recovery_timeout_secs == old.recovery_timeout_secs
}

/// `new` is `old` after `record_failure` (at some time).
pub open spec fn after_failure(old: CircuitBreaker, new: CircuitBreaker) -> bool {
    &&& new.failure_count == old.failure_count + 1
    &&& new.last_failure_time is Some
    &&& new.failure_threshold == old.failure_threshold
    &&& new.recovery_timeout_secs == old.recovery_timeout_secs
    &&& new.state == (if new.failure_count >= old.failure_threshold || old.state == CircuitState::HalfOpen {
        CircuitState::Open
    } else {
        old.state
    })
}

/// `new` is `old` after an `allow_request` that gave `allowed`.
pub open spec fn after_admission(old: CircuitBreaker, new: CircuitBreaker, allowed: bool) -> bool {
    &&& exists|now: i128| new.state == admitted_state(old, now) && allowed == (admitted_state(old, now)
        != CircuitState::Open)
    &&& new.failure_count == old.failure_count
    &&& new.failure_threshold == old.failure_threshold
    &&& new.recovery_timeout_secs == old.recovery_timeout_secs
    &&& new.last_failure_time == old.last_failure_time
}

/// Message when the breaker refuses a diagnosis.
pub open spec fn refused_message(target: Seq<char>, count: u64, threshold: u64) -> Seq<char> {
    "Circuit breaker OPEN for '"@ + target + "' ("@ + dec(count as nat) + " failures, threshold "@
        + dec(threshold as nat) + ")"@
}

/// Event details after a registered healer ran.
pub open spec fn healer_details(
    name: Seq<char>,
    issue: Seq<char>,
    pre_healthy: bool,
    duration_ms: u64,
    message: Seq<char>,
) -> Seq<char> {
    "healer="@ + name + " issue="@ + issue + " pre_healthy="@ + bool_text(pre_healthy) + " duration="@
        + dec(duration_ms as nat) + "ms msg="@ + message
}

/// Event details after the fallback pipeline ran.
pub open spec fn pipeline_details(
    target: Seq<char>,
    issue: Seq<char>,
    pre_healthy: bool,
    duration_ms: u64,
    message: Seq<char>,
) -> Seq<char> {
    "pipeline target="@ + target + " issue="@ + issue + " pre_healthy="@ + bool_text(pre_healthy)
        + " duration="@ + dec(duration_ms as nat) + "ms msg="@ + message
}

/// What follows one healing attempt under the retry policy.
#[derive(Debug)]
pub enum RetryVerdict {
    /// Stop with this result.
    Finished(HealingResult),
    /// Try again; this is the error to report if retries run out.
    Continue(String),
}

/// The healing controller's circuit breaker and event log.
pub struct HealingLedger {
    circuit_breaker: CircuitBreaker,
    events: Vec<HealingEvent>,
    next_id: u64,
}

impl HealingLedger {
    /// The breaker guarding healing.
    pub closed spec fn breaker(&self) -> CircuitBreaker {
        self.circuit_breaker
    }

    /// The breaker guarding healing.
    pub fn circuit_breaker(&self) -> (cb: &CircuitBreaker)
        ensures
            *cb == self.breaker(),
    {
        &self.circuit_breaker
    }

    /// The breaker guarding healing, for changes.
    pub fn circuit_breaker_mut(&mut self) -> (cb: &mut CircuitBreaker)
        ensures
            *cb == old(self).breaker(),
            final(self).breaker() == *final(cb),
            final(self).events_view() == old(self).events_view(),
            final(self).next_event_id() == old(self).next_event_id(),
    {
        &mut self.circuit_breaker
    }

    /// The recorded events, oldest first.
    pub closed spec fn events_view(&self) -> Seq<HealingEvent> {
        self.events@
    }

    /// The id the next event receives.
    pub closed spec fn next_event_id(&self) -> u64 {
        self.next_id
    }

    /// A ledger with the default breaker (5 failures, 30 s), no events, ids from 1.
    pub fn new() -> (l: Self)
        ensures
            l.breaker() == CircuitBreaker::new_spec(5, 30),
            l.events_view().len() == 0,
            l.next_event_id() == 1,
    {
        HealingLedger { circuit_breaker: CircuitBreaker::new(), events: Vec::new(), next_id: 1 }
    }

    /// A ledger whose breaker has the given thresholds.
    pub fn with_thresholds(failure_threshold: u64, recovery_timeout_secs: u64) -> (l: Self)
        ensures
            l.breaker() == CircuitBreaker::new_spec(failure_threshold, recovery_timeout_secs),
            l.events_view().len() == 0,
            l.next_event_id() == 1,
    {
        HealingLedger {
            circuit_breaker: CircuitBreaker::with_thresholds(failure_threshold, recovery_timeout_secs),
            events: Vec::new(),
            next_id: 1,
        }
    }

    /// The recorded events, oldest first.
    pub fn get_events(&self) -> (e: &Vec<HealingEvent>)
        ensures
            e@ == self.events_view(),
    {
        &self.events
    }

    fn record(&mut self, target: &str, result: &HealingResult, details: String)
        ensures
            final(self).breaker() == old(self).breaker(),
            final(self).next_id == vstd::wrapping::u64_specs::wrapping_add(old(self).next_id, 1),
            final(self).events@.len() == old(self).events@.len() + 1,
            final(self).events@.drop_last() == old(self).events@,
            final(self).events@.last().id == old(self).next_id,
            final(self).events@.last().target@ == target@,
            final(self).events@.last().action@ == result.action@,
            final(self).events@.last().success == result.success,
            final(self).events@.last().details@ == details@,
    {
        let id = self.next_id;
        self.next_id = self.next_id.wrapping_add(1);
        let event = HealingEvent {
            id,
            timestamp: crate::clock::now_nanos(),
            target: target.to_owned(),
            action: result.action.clone(),
            success: result.success,
            details,
        };
        self.events.push(event);
        assert(self.events@.drop_last() =~= old(self).events@);
    }

    /// Circuit check before a diagnosis (timed from `start`). When the breaker
    /// refuses, the refusal is logged as an event and returned.
    pub fn admit_diagnosis(&mut self, target: &str, start: &std::time::Instant) -> (r: Option<
        HealingResult,
    >)
        ensures
            after_admission(old(self).breaker(), final(self).breaker(), r is None),
            r is None ==> final(self).events_view() == old(self).events_view() && final(self).next_event_id()
                == old(self).next_event_id(),
            r matches Some(res) ==> {
                &&& !res.success
                &&& res.action@ == "diagnose_and_heal"@
                &&& res.message@ == refused_message(
                    target@,
                    old(self).breaker().failure_count,
                    old(self).breaker().failure_threshold,
                ) + ". Skipping."@
                &&& final(self).events_view().drop_last() == old(self).events_view()
                &&& final(self).events_view().len() == old(self).events_view().len() + 1
                &&& final(self).events_view().last().id == old(self).next_event_id()
                &&& final(self).events_view().last().target@ == target@
                &&& final(self).events_view().last().action@ == res.action@
                &&& !final(self).events_view().last().success
                &&& final(self).events_view().last().details@ == res.message@
                &&& final(self).next_event_id() == vstd::wrapping::u64_specs::wrapping_add(
                    old(self).next_event_id(),
                    1,
                )
            },
    {
        if self.circuit_breaker.allow_request() {
            return None;
        }
        let mut message = String::new();
        push_str(&mut message, "Circuit breaker OPEN for '");
        push_str(&mut message, target);
        push_str(&mut message, "' (");
        push_dec(&mut message, self.circuit_breaker.failure_count);
        push_str(&mut message, " failures, threshold ");
        push_dec(&mut message, self.circuit_breaker.failure_threshold);
        push_str(&mut message, ")");
        push_str(&mut message, ". Skipping.");
        let result = HealingResult {
            action: "diagnose_and_heal".to_owned(),
            success: false,
            message,
            duration_ms: crate::clock::elapsed_millis(start),
        };
        let details = result.message.clone();
        self.record(target, &result, details);
        Some(result)
    }

    /// Settles a diagnosis handled by the registered healer `healer_name`, whose
    /// heal returned `result`: a successful heal is verified; the breaker records
    /// success only when both succeeded; the outcome is logged as an event.
    pub fn settle_healer(
        &mut self,
        healer_name: &str,
        target: &str,
        issue: &str,
        pre_healthy: bool,
        result: HealingResult,
        start: &std::time::Instant,
    ) -> (r: HealingResult)
        requires
            old(self).breaker().failure_count < u64::MAX,
        ensures
            result.success && target@.len() != 0 ==> {
                &&& r.success
                &&& r.action@ == result.action@
                &&& r.message@ == "Healed via "@ + healer_name@ + ": "@ + result.message@
                    + " (verified: "@ + verify_message(target@, issue@) + ")"@
                &&& after_success(old(self).breaker(), final(self).breaker())
            },
            result.success && target@.len() == 0 ==> {
                &&& !r.success
                &&& r.action@ == result.action@
                &&& r.message@ == healer_name@ + " applied but verification failed: "@ + verify_message(
                    target@,
                    issue@,
                )
                &&& after_failure(old(self).breaker(), final(self).breaker())
            },
            !result.success ==> r == result && after_failure(
                old(self).breaker(),
                final(self).breaker(),
            ),
            final(self).events_view().drop_last() == old(self).events_view(),
            final(self).events_view().len() == old(self).events_view().len() + 1,
            final(self).events_view().last().id == old(self).next_event_id(),
            final(self).events_view().last().target@ == target@,
            final(self).events_view().last().action@ == r.action@,
            final(self).events_view().last().success == r.success,
            final(self).events_view().last().details@ == healer_details(
                healer_name@,
                issue@,
                pre_healthy,
                r.duration_ms,
                r.message@,
            ),
            final(self).next_event_id() == vstd::wrapping::u64_specs::wrapping_add(
                old(self).next_event_id(),
                1,
            ),
    {
        let final_result = if result.success {
            let verify = verify_healing(target, issue);
            if verify.success {
                self.circuit_breaker.record_success();
                let mut message = String::new();
                push_str(&mut message, "Healed via ");
                push_str(&mut message, healer_name);
                push_str(&mut message, ": ");
                push_str(&mut message, result.message.as_str());
                push_str(&mut message, " (verified: ");
                push_str(&mut message, verify.message.as_str());
                push_str(&mut message, ")");
                HealingResult {
                    action: result.action,
                    success: true,
                    message,
                    duration_ms: crate::clock::elapsed_millis(start),
                }
            } else {
                self.circuit_breaker.record_failure();
                let mut message = String::new();
                push_str(&mut message, healer_name);
                push_str(&mut message, " applied but verification failed: ");
                push_str(&mut message, verify.message.as_str());
                HealingResult {
                    action: result.action,
                    success: false,
                    message,
                    duration_ms: crate::clock::elapsed_millis(start),
                }
            }
        } else {
            self.circuit_breaker.record_failure();
            result
        };
        let mut details = String::new();
        push_str(&mut details, "healer=");
        push_str(&mut details, healer_name);
        push_str(&mut details, " issue=");
        push_str(&mut details, issue);
        push_str(&mut details, " pre_healthy=");
        crate::text::push_bool(&mut details, pre_healthy);
        push_str(&mut details, " duration=");
        push_dec(&mut details, final_result.duration_ms);
        push_str(&mut details, "ms msg=");
        push_str(&mut details, final_result.message.as_str());
        self.record(target, &final_result, details);
        final_result
    }

    /// Settles a diagnosis that no registered healer handled, after the fallback
    /// healing pipeline returned `result`. The pipeline heals only when it ran,
    /// the target checks healthy, and some recovery strategy recognizes the issue: a
    /// restart guessed for an issue nothing recognizes counts as a failure.
    pub fn settle_pipeline(
        &mut self,
        target: &str,
        issue: &str,
        pre_healthy: bool,
        result: HealingResult,
        start: &std::time::Instant,
    ) -> (r: HealingResult)
        requires
            old(self).breaker().failure_count < u64::MAX,
        ensures
            r.action@ == result.action@,
            r.success == (result.success && target@.len() != 0 && recognized_issue(lowercase(issue@))),
            r.success ==> r.message@ == "Pipeline healed: "@ + result.message@ + " (verified: "@
                + verify_message(target@, issue@) + ")"@ && after_success(
                old(self).breaker(),
                final(self).breaker(),
            ),
            !r.success ==> r.message@ == "Pipeline failed: "@ + result.message@ + " (verify: "@ + (
            if !result.success {
                result.message@
            } else if target@.len() == 0 {
                verify_message(target@, issue@)
            } else {
                unrecognized_message(issue@)
            }) + ")"@ && after_failure(old(self).breaker(), final(self).breaker()),
            final(self).events_view().drop_last() == old(self).events_view(),
            final(self).events_view().len() == old(self).events_view().len() + 1,
            final(self).events_view().last().id == old(self).next_event_id(),
            final(self).events_view().last().target@ == target@,
            final(self).events_view().last().action@ == r.action@,
            final(self).events_view().last().success == r.success,
            final(self).events_view().last().details@ == pipeline_details(
                target@,
                issue@,
                pre_healthy,
                r.duration_ms,
                r.message@,
            ),
            final(self).next_event_id() == vstd::wrapping::u64_specs::wrapping_add(
                old(self).next_event_id(),
                1,
            ),
    {
        let verify = if result.success {
            verify_healing(target, issue)
        } else {
            result.duplicate()
        };
        let recognized = recognizes(issue);
        let final_result = if result.success && verify.success && recognized {
            self.circuit_breaker.record_success();
            let mut message = String::new();
            push_str(&mut message, "Pipeline healed: ");
            push_str(&mut message, result.message.as_str());
            push_str(&mut message, " (verified: ");
            push_str(&mut message, verify.message.as_str());
            push_str(&mut message, ")");
            HealingResult {
                action: result.action,
                success: true,
                message,
                duration_ms: crate::clock::elapsed_millis(start),
            }
        } else {
            self.circuit_breaker.record_failure();
            let mut message = String::new();
            push_str(&mut message, "Pipeline failed: ");
            push_str(&mut message, result.message.as_str());
            push_str(&mut message, " (verify: ");
            if verify.success {
                push_str(&mut message, "no recovery strategy recognizes '");
                push_str(&mut message, issue);
                push_str(&mut message, "'");
            } else {
                push_str(&mut message, verify.message.as_str());
            }
            push_str(&mut message, ")");
            HealingResult {
                action: result.action,
                success: false,
                message,
                duration_ms: crate::clock::elapsed_millis(start),
            }
        };
        let mut details = String::new();
        push_str(&mut details, "pipeline target=");
        push_str(&mut details, target);
        push_str(&mut details, " issue=");
        push_str(&mut details, issue);
        push_str(&mut details, " pre_healthy=");
        crate::text::push_bool(&mut details, pre_healthy);
        push_str(&mut details, " duration=");
        push_dec(&mut details, final_result.duration_ms);
        push_str(&mut details, "ms msg=");
        push_str(&mut details, final_result.message.as_str());
        self.record(target, &final_result, details);
        final_result
    }

    /// Circuit check before a healing with retries (timed from `start`); when the
    /// breaker refuses, the refusal is returned (and not logged).
    pub fn admit_retry(&mut self, target: &str, start: &std::time::Instant) -> (r: Option<HealingResult>)
        ensures
            after_admission(old(self).breaker(), final(self).breaker(), r is None),
            final(self).events_view() == old(self).events_view(),
            final(self).next_event_id() == old(self).next_event_id(),
            r matches Some(res) ==> !res.success && res.action@ == "try_heal_with_retry"@ && res.message@
                == refused_message(
                target@,
                old(self).breaker().failure_count,
                old(self).breaker().failure_threshold,
            ),
    {
        if self.circuit_breaker.allow_request() {
            return None;
        }
        let mut message = String::new();
        push_str(&mut message, "Circuit breaker OPEN for '");
        push_str(&mut message, target);
        push_str(&mut message, "' (");
        push_dec(&mut message, self.circuit_breaker.failure_count);
        push_str(&mut message, " failures, threshold ");
        push_dec(&mut message, self.circuit_breaker.failure_threshold);
        push_str(&mut message, ")");
        Some(
            HealingResult {
                action: "try_heal_with_retry".to_owned(),
                success: false,
                message,
                duration_ms: crate::clock::elapsed_millis(start),
            },
        )
    }

    /// Decides after healing attempt number `attempt` (0-based) returned `result`:
    /// a verified success finishes (breaker records success); a success that fails
    /// verification is retried; a permanent failure finishes (breaker records
    /// failure); a transient failure is retried.
    pub fn after_attempt(
        &mut self,
        target: &str,
        issue: &str,
        attempt: u32,
        result: &HealingResult,
        start: &std::time::Instant,
    ) -> (v: RetryVerdict)
        requires
            old(self).breaker().failure_count < u64::MAX,
        ensures
            final(self).events_view() == old(self).events_view(),
            final(self).next_event_id() == old(self).next_event_id(),
            result.success && target@.len() != 0 ==> (v matches RetryVerdict::Finished(r) && r.success
                && r.action@ == "try_heal_with_retry("@ + target@ + ")"@ && r.message@ == "Healed after "@
                + dec(attempt as nat) + " retries (attempt "@ + dec((attempt + 1) as nat) + "). "@ + result.message@)
                && after_success(old(self).breaker(), final(self).breaker()),
            result.success && target@.len() == 0 ==> (v matches RetryVerdict::Continue(e) && e@
                == "Heal claimed success but verification failed: "@ + verify_message(target@, issue@))
                && final(self).breaker() == old(self).breaker(),
            !result.success && class_of_lowered(lowercase(result.message@)) == FailureClass::Permanent ==> (
            v matches RetryVerdict::Finished(r) && !r.success && r.action@ == "try_heal_with_retry"@
                && r.message@ == "Permanent failure on '"@ + target@ + "': "@ + result.message@)
                && after_failure(old(self).breaker(), final(self).breaker()),
            !result.success && class_of_lowered(lowercase(result.message@)) == FailureClass::Transient ==> (
            v matches RetryVerdict::Continue(e) && e@ == result.message@) && final(self).breaker()
                == old(self).breaker(),
    {
        if result.success {
            let verify = verify_healing(target, issue);
            if verify.success {
                self.circuit_breaker.record_success();
                let mut action = String::new();
                push_str(&mut action, "try_heal_with_retry(");
                push_str(&mut action, target);
                push_str(&mut action, ")");
                let mut message = String::new();
                push_str(&mut message, "Healed after ");
                push_dec(&mut message, attempt as u64);
                push_str(&mut message, " retries (attempt ");
                push_dec(&mut message, attempt as u64 + 1);
                push_str(&mut message, "). ");
                push_str(&mut message, result.message.as_str());
                return RetryVerdict::Finished(
                    HealingResult {
                        action,
                        success: true,
                        message,
                        duration_ms: crate::clock::elapsed_millis(start),
                    },
                );
            }
            let mut last_error = String::new();
            push_str(&mut last_error, "Heal claimed success but verification failed: ");
            push_str(&mut last_error, verify.message.as_str());
            return RetryVerdict::Continue(last_error);
        }
        let last_error = result.message.clone();
        if default_classify(last_error.as_str()) == FailureClass::Permanent {
            self.circuit_breaker.record_failure();
            let mut message = String::new();
            push_str(&mut message, "Permanent failure on '");
            push_str(&mut message, target);
            push_str(&mut message, "': ");
            push_str(&mut message, last_error.as_str());
            return RetryVerdict::Finished(
                HealingResult {
                    action: "try_heal_with_retry".to_owned(),
                    success: false,
                    message,
                    duration_ms: crate::clock::elapsed_millis(start),
                },
            );
        }
        RetryVerdict::Continue(last_error)
    }

    /// The result when all `max_retries` retries are used up; the breaker records
    /// a failure.
    pub fn retries_exhausted(
        &mut self,
        target: &str,
        max_retries: u32,
        last_error: &str,
        start: &std::time::Instant,
    ) -> (r: HealingResult)
        requires
            old(self).breaker().failure_count < u64::MAX,
        ensures
            !r.success,
            r.action@ == "try_heal_with_retry"@,
            r.message@ == "All "@ + dec(max_retries as nat) + " retries exhausted for '"@ + target@
                + "'. Last error: "@ + last_error@,
            after_failure(old(self).breaker(), final(self).breaker()),
            final(self).events_view() == old(self).events_view(),
            final(self).next_event_id() == old(self).next_event_id(),
    {
        self.circuit_breaker.record_failure();
        let mut message = String::new();
        push_str(&mut message, "All ");
        push_dec(&mut message, max_retries as u64);
        push_str(&mut message, " retries exhausted for '");
        push_str(&mut message, target);
        push_str(&mut message, "'. Last error: ");
        push_str(&mut message, last_error);
        HealingResult {
            action: "try_heal_with_retry".to_owned(),
            success: false,
            message,
            duration_ms: crate::clock::elapsed_millis(start),
        }
    }
}

/// What a retry loop does after an attempt of a call.
#[derive(Debug, Clone, Copy, PartialEq, Eq, Structural)]
pub enum RetryStep {
    /// The call succeeded: record a success and return its value.
    Succeeded,
    /// The call failed for good: record a failure and return its error.
    Failed,
    /// The call failed transiently and a retry is left: wait, then try again.
    TryAgain,
    /// The call failed transiently on the last attempt: record a failure and give up.
    Exhausted,
}

/// The step after attempt `attempt` (counted from 0) under a policy of
/// `max_retries` retries: a success ends the loop, a permanent failure ends it as a
/// failure, a transient one is retried while retries are left.
pub fn retry_step(attempt: u32, max_retries: u32, succeeded: bool, class: FailureClass) -> (s: RetryStep)
    ensures
        s == (if succeeded {
            RetryStep::Succeeded
        } else if class == FailureClass::Permanent {
            RetryStep::Failed
        } else if attempt < max_retries {
            RetryStep::TryAgain
        } else {
            RetryStep::Exhausted
        }),
{
    if succeeded {
        RetryStep::Succeeded
    } else if class == FailureClass::Permanent {
        RetryStep::Failed
    } else if attempt < max_retries {
        RetryStep::TryAgain
    } else {
        RetryStep::Exhausted
    }
}

/// The error when all `max_retries` retries failed, the last with `last_error`.
pub fn exhausted_error(max_retries: u32, last_error: &str) -> (s: String)
    ensures
        s@ == "All "@ + dec(max_retries as nat) + " retries exhausted. Last error: "@ + last_error@,
{
    let mut s = String::new();
    push_str(&mut s, "All ");
    push_dec(&mut s, max_retries as u64);
    push_str(&mut s, " retries exhausted. Last error: ");
    push_str(&mut s, last_error);
    s
}

/// The error when an open breaker refuses a call.
pub fn breaker_open_error(failure_count: u64, failure_threshold: u64) -> (s: String)
    ensures
        s@ == "Circuit breaker is OPEN ("@ + dec(failure_count as nat) + " failures, threshold "@ + dec(
            failure_threshold as nat,
        ) + ")"@,
{
    let mut s = String::new();
    push_str(&mut s, "Circuit breaker is OPEN (");
    push_dec(&mut s, failure_count);
    push_str(&mut s, " failures, threshold ");
    push_dec(&mut s, failure_threshold);
    push_str(&mut s, ")");
    s
}

} // verus!
