//! Transient-failure retry with exponential backoff.
//!
//! The policy decides, from the outcome of one attempt and the time spent
//! so far, whether to deliver the outcome, wait and retry, or give up.
//! Backoff grows exponentially from a bounded minimum to a bounded maximum
//! per-attempt delay, with jitter drawn within the bounded window; a total
//! elapsed-time ceiling puts a hard upper bound on every call. The caller
//! performs the attempts and the waiting; every decision is made here, and
//! is deterministic in the supplied jitter value.

use vstd::prelude::*;
use vstd::arithmetic::div_mod::lemma_fundamental_div_mod;
use crate::error::ConnectError;

verus! {

/// Configuration of the retry policy: per-attempt delay bounds, the
/// exponential base, and the total elapsed-time ceiling, all in
/// milliseconds.
#[derive(Clone, Copy, Debug, PartialEq, Eq, Structural)]
pub struct RetryPolicy {
    pub min_delay_ms: u64,
    pub max_delay_ms: u64,
    pub base: u64,
    pub total_time_ceiling_ms: u64,
}

/// What one attempt against the transport came back with: a status code,
/// or no response at all.
#[derive(Clone, Copy, Debug, PartialEq, Eq, Structural)]
pub enum AttemptOutcome {
    /// The service answered with this status code.
    Response(u16),
    /// The request failed below HTTP: connection, write, or read error.
    NetworkError,
}

/// What to do after one attempt.
#[derive(Clone, Copy, Debug, PartialEq, Eq, Structural)]
pub enum RetryDecision {
    /// The outcome is settled: hand it to the classifier.
    Deliver,
    /// Transient failure with time left: wait this many milliseconds and
    /// try again.
    RetryAfter(u64),
    /// Transient failure past the time ceiling: surface
    /// [`ConnectError::RetryExhausted`].
    GiveUp,
}

/// A transient failure: no response at all, or a server-side (5xx) status.
/// Client errors (4xx) are never transient.
pub open spec fn spec_transient(o: AttemptOutcome) -> bool {
    match o {
        AttemptOutcome::NetworkError => true,
        AttemptOutcome::Response(code) => 500 <= code <= 599,
    }
}

/// Decides whether an outcome is a transient failure.
pub fn is_transient(o: &AttemptOutcome) -> (r: bool)
    ensures
        r == spec_transient(*o),
{
    match o {
        AttemptOutcome::NetworkError => true,
        AttemptOutcome::Response(code) => 500 <= *code && *code <= 599,
    }
}

/// The unclamped exponential backoff before the given retry:
/// `min_delay_ms * base^attempt`.
pub open spec fn spec_backoff_raw(p: RetryPolicy, attempt: nat) -> int
    decreases attempt,
{
    if attempt == 0 {
        p.min_delay_ms as int
    } else {
        spec_backoff_raw(p, (attempt - 1) as nat) * p.base
    }
}

/// The backoff before the given retry, clamped at the per-attempt maximum.
pub open spec fn spec_backoff_delay(p: RetryPolicy, attempt: nat) -> int {
    if spec_backoff_raw(p, attempt) > p.max_delay_ms {
        p.max_delay_ms as int
    } else {
        spec_backoff_raw(p, attempt)
    }
}

/// The delay actually waited before the given retry: the jitter value
/// places it uniformly within the window from the minimum delay up to the
/// clamped backoff.
pub open spec fn spec_jittered_delay(p: RetryPolicy, attempt: nat, jitter: u64) -> int {
    p.min_delay_ms + (jitter as int) % (spec_backoff_delay(p, attempt) - p.min_delay_ms + 1)
}

impl RetryPolicy {
    /// Well-formedness: positive delays in order, and a positive base.
    pub open spec fn wf(self) -> bool {
        1 <= self.min_delay_ms <= self.max_delay_ms && 1 <= self.base
    }

    /// The lightweight configuration: delays bounded between one second
    /// and one minute, doubling, with a ten-minute total ceiling.
    pub fn standard() -> (r: RetryPolicy)
        ensures
            r == (RetryPolicy {
                min_delay_ms: 1000,
                max_delay_ms: 60000,
                base: 2,
                total_time_ceiling_ms: 600000,
            }),
            r.wf(),
    {
        RetryPolicy { min_delay_ms: 1000, max_delay_ms: 60000, base: 2, total_time_ceiling_ms: 600000 }
    }

    /// Computes the clamped backoff before the given retry.
    pub fn backoff_delay(&self, attempt: u64) -> (d: u64)
        requires
            self.wf(),
        ensures
            d as int == spec_backoff_delay(*self, attempt as nat),
            self.min_delay_ms <= d <= self.max_delay_ms,
    {
        proof {
            lemma_backoff_raw_at_least_min(*self, attempt as nat);
        }
        let mut d: u64 = self.min_delay_ms;
        let mut i: u64 = 0;
        while i < attempt
            invariant
                self.wf(),
                i <= attempt,
                d as int == spec_backoff_delay(*self, i as nat),
                self.min_delay_ms <= d <= self.max_delay_ms,
            decreases attempt - i,
        {
            proof {
                lemma_backoff_raw_at_least_min(*self, i as nat);
                lemma_backoff_raw_at_least_min(*self, (i + 1) as nat);
            }
            if d >= self.max_delay_ms {
                proof {
                    lemma_backoff_step_stays_clamped(*self, i as nat);
                }
                d = self.max_delay_ms;
            } else if d > self.max_delay_ms / self.base {
                proof {
                    lemma_fundamental_div_mod(self.max_delay_ms as int, self.base as int);
                    assert(spec_backoff_raw(*self, (i + 1) as nat) > self.max_delay_ms) by (nonlinear_arith)
                        requires
                            spec_backoff_raw(*self, (i + 1) as nat) == spec_backoff_raw(*self, i as nat) * self.base,
                            spec_backoff_raw(*self, i as nat) == d as int,
                            d as int > (self.max_delay_ms as int) / (self.base as int),
                            self.max_delay_ms as int == (self.base as int) * ((self.max_delay_ms as int) / (self.base as int)) + (self.max_delay_ms as int) % (self.base as int),
                            0 <= (self.max_delay_ms as int) % (self.base as int) < self.base as int,
                            1 <= self.base;
                }
                d = self.max_delay_ms;
            } else {
                proof {
                    assert((self.base as int) * ((self.max_delay_ms as int) / (self.base as int)) <= self.max_delay_ms as int) by {
                        lemma_fundamental_div_mod(self.max_delay_ms as int, self.base as int);
                    }
                    assert(d as int * self.base as int <= self.max_delay_ms as int) by (nonlinear_arith)
                        requires
                            0 <= d as int,
                            d as int <= (self.max_delay_ms as int) / (self.base as int),
                            (self.base as int) * ((self.max_delay_ms as int) / (self.base as int)) <= self.max_delay_ms as int,
                            1 <= self.base;
                }
                d = d * self.base;
            }
            i = i + 1;
        }
        d
    }

    /// Computes the delay to wait before the given retry, from the jitter
    /// value: within the window, never under the minimum delay, never over
    /// the clamped backoff.
    pub fn jittered_delay(&self, attempt: u64, jitter: u64) -> (d: u64)
        requires
            self.wf(),
        ensures
            d as int == spec_jittered_delay(*self, attempt as nat, jitter),
            self.min_delay_ms <= d,
            d as int <= spec_backoff_delay(*self, attempt as nat),
            d <= self.max_delay_ms,
    {
        let cap = self.backoff_delay(attempt);
        let span = cap - self.min_delay_ms + 1;
        let d = self.min_delay_ms + jitter % span;
        d
    }

    /// Decides what to do after one attempt, given the outcome, how many
    /// retries went before, the time spent so far, and the jitter draw.
    ///
    /// A settled outcome — any response outside the transient set, a
    /// client error such as 400 among them — is delivered at once and
    /// never retried. A transient failure is retried after the jittered
    /// backoff while that wait still fits under the time ceiling, and
    /// given up otherwise.
    pub fn decide(&self, outcome: &AttemptOutcome, attempt: u64, elapsed_ms: u64, jitter: u64)
        -> (r: RetryDecision)
        requires
            self.wf(),
            elapsed_ms <= self.total_time_ceiling_ms,
        ensures
            !spec_transient(*outcome) ==> r == RetryDecision::Deliver,
            spec_transient(*outcome) && elapsed_ms + spec_jittered_delay(*self, attempt as nat, jitter)
                <= self.total_time_ceiling_ms ==> (r matches RetryDecision::RetryAfter(d)
                && d as int == spec_jittered_delay(*self, attempt as nat, jitter)),
            spec_transient(*outcome) && elapsed_ms + spec_jittered_delay(*self, attempt as nat, jitter)
                > self.total_time_ceiling_ms ==> r == RetryDecision::GiveUp,
    {
        if !is_transient(outcome) {
            RetryDecision::Deliver
        } else {
            let d = self.jittered_delay(attempt, jitter);
            if d <= self.total_time_ceiling_ms - elapsed_ms {
                RetryDecision::RetryAfter(d)
            } else {
                RetryDecision::GiveUp
            }
        }
    }

    /// Runs the retry loop over a given sequence of attempt outcomes and
    /// jitter draws, one jitter value per outcome.
    ///
    /// The first settled outcome is delivered; transient failures retry
    /// while the jittered backoff fits under the time ceiling, and the
    /// run ends in [`ConnectError::RetryExhausted`] once it does not (or
    /// once the given outcomes run out while still transient).
    pub fn run_attempts(&self, outcomes: &Vec<AttemptOutcome>, jitters: &Vec<u64>) -> (r: Result<
        AttemptOutcome,
        ConnectError,
    >)
        requires
            self.wf(),
            outcomes@.len() == jitters@.len(),
        ensures
            r == spec_run(*self, outcomes@, jitters@, 0, 0),
    {
        let mut i: usize = 0;
        let mut elapsed: u64 = 0;
        loop
            invariant
                self.wf(),
                outcomes@.len() == jitters@.len(),
                i <= outcomes@.len(),
                elapsed <= self.total_time_ceiling_ms,
                spec_run(*self, outcomes@, jitters@, 0, 0) == spec_run(
                    *self,
                    outcomes@,
                    jitters@,
                    i as nat,
                    elapsed as int,
                ),
            decreases outcomes@.len() - i,
        {
            if i >= outcomes.len() {
                return Err(ConnectError::RetryExhausted);
            }
            let outcome = outcomes[i];
            if !is_transient(&outcome) {
                return Ok(outcome);
            }
            let d = self.jittered_delay(i as u64, jitters[i]);
            if d <= self.total_time_ceiling_ms - elapsed {
                elapsed = elapsed + d;
                i = i + 1;
            } else {
                return Err(ConnectError::RetryExhausted);
            }
        }
    }
}

/// What the retry loop yields on a sequence of attempt outcomes, starting
/// at attempt `i` with the given time already spent: the first settled
/// outcome, or exhaustion once a wait no longer fits under the ceiling or
/// the outcomes run out.
pub open spec fn spec_run(
    p: RetryPolicy,
    outcomes: Seq<AttemptOutcome>,
    jitters: Seq<u64>,
    i: nat,
    elapsed: int,
) -> Result<AttemptOutcome, ConnectError>
    decreases outcomes.len() - i,
{
    if i >= outcomes.len() {
        Err(ConnectError::RetryExhausted)
    } else if !spec_transient(outcomes[i as int]) {
        Ok(outcomes[i as int])
    } else {
        let d = spec_jittered_delay(p, i, jitters[i as int]);
        if elapsed + d <= p.total_time_ceiling_ms {
            spec_run(p, outcomes, jitters, i + 1, elapsed + d)
        } else {
            Err(ConnectError::RetryExhausted)
        }
    }
}

/// The total time waited before attempt `n`: the sum of the first `n`
/// jittered delays.
pub open spec fn spec_total_backoff(p: RetryPolicy, jitters: Seq<u64>, n: nat) -> int
    decreases n,
{
    if n == 0 {
        0
    } else {
        spec_total_backoff(p, jitters, (n - 1) as nat) + spec_jittered_delay(
            p,
            (n - 1) as nat,
            jitters[n - 1],
        )
    }
}

/// The unclamped backoff never falls under the minimum delay.
proof fn lemma_backoff_raw_at_least_min(p: RetryPolicy, attempt: nat)
    requires
        p.wf(),
    ensures
        spec_backoff_raw(p, attempt) >= p.min_delay_ms,
    decreases attempt,
{
    if attempt > 0 {
        lemma_backoff_raw_at_least_min(p, (attempt - 1) as nat);
        assert(spec_backoff_raw(p, (attempt - 1) as nat) * p.base >= spec_backoff_raw(
            p,
            (attempt - 1) as nat,
        )) by (nonlinear_arith)
            requires
                spec_backoff_raw(p, (attempt - 1) as nat) >= 1,
                p.base >= 1;
    }
}

/// Once the unclamped backoff has reached the maximum it stays there.
proof fn lemma_backoff_step_stays_clamped(p: RetryPolicy, attempt: nat)
    requires
        p.wf(),
        spec_backoff_raw(p, attempt) >= p.max_delay_ms,
    ensures
        spec_backoff_raw(p, attempt + 1) >= p.max_delay_ms,
{
    assert(spec_backoff_raw(p, attempt) * p.base >= p.max_delay_ms) by (nonlinear_arith)
        requires
            spec_backoff_raw(p, attempt) >= p.max_delay_ms,
            p.max_delay_ms >= 1,
            p.base >= 1;
}

/// Every jittered delay lies between the minimum delay and the maximum.
proof fn lemma_jittered_delay_bounds(p: RetryPolicy, attempt: nat, jitter: u64)
    requires
        p.wf(),
    ensures
        p.min_delay_ms <= spec_jittered_delay(p, attempt, jitter),
        spec_jittered_delay(p, attempt, jitter) <= spec_backoff_delay(p, attempt),
        spec_backoff_delay(p, attempt) <= p.max_delay_ms,
{
    lemma_backoff_raw_at_least_min(p, attempt);
}

/// The total wait grows with the attempt count.
proof fn lemma_total_backoff_monotone(p: RetryPolicy, jitters: Seq<u64>, a: nat, b: nat)
    requires
        p.wf(),
        a <= b,
    ensures
        spec_total_backoff(p, jitters, a) <= spec_total_backoff(p, jitters, b),
    decreases b - a,
{
    if a < b {
        lemma_total_backoff_monotone(p, jitters, a, (b - 1) as nat);
        lemma_jittered_delay_bounds(p, (b - 1) as nat, jitters[b - 1]);
    }
}

proof fn lemma_run_reaches(
    p: RetryPolicy,
    outcomes: Seq<AttemptOutcome>,
    jitters: Seq<u64>,
    i: nat,
    n: nat,
)
    requires
        p.wf(),
        outcomes.len() == jitters.len(),
        i <= n < outcomes.len(),
        forall|k: int| i <= k < n ==> spec_transient(outcomes[k]),
        !spec_transient(outcomes[n as int]),
        spec_total_backoff(p, jitters, n) <= p.total_time_ceiling_ms,
    ensures
        spec_run(p, outcomes, jitters, i, spec_total_backoff(p, jitters, i)) == Ok::<
            AttemptOutcome,
            ConnectError,
        >(outcomes[n as int]),
    decreases n - i,
{
    if i < n {
        lemma_total_backoff_monotone(p, jitters, i + 1, n);
        assert(spec_total_backoff(p, jitters, i + 1) == spec_total_backoff(p, jitters, i)
            + spec_jittered_delay(p, i, jitters[i as int]));
        lemma_run_reaches(p, outcomes, jitters, i + 1, n);
    }
}

/// A run on a sequence of transient failures followed by one settled
/// outcome delivers that outcome, provided the total wait before it fits
/// under the time ceiling.
pub proof fn lemma_retry_delivers(
    p: RetryPolicy,
    outcomes: Seq<AttemptOutcome>,
    jitters: Seq<u64>,
    n: nat,
)
    requires
        p.wf(),
        outcomes.len() == jitters.len(),
        n < outcomes.len(),
        forall|k: int| 0 <= k < n ==> spec_transient(outcomes[k]),
        !spec_transient(outcomes[n as int]),
        spec_total_backoff(p, jitters, n) <= p.total_time_ceiling_ms,
    ensures
        spec_run(p, outcomes, jitters, 0, 0) == Ok::<AttemptOutcome, ConnectError>(
            outcomes[n as int],
        ),
{
    lemma_run_reaches(p, outcomes, jitters, 0, n);
}

proof fn lemma_run_exhausts_from(
    p: RetryPolicy,
    outcomes: Seq<AttemptOutcome>,
    jitters: Seq<u64>,
    i: nat,
    n: nat,
)
    requires
        p.wf(),
        outcomes.len() == jitters.len(),
        i < n <= outcomes.len(),
        forall|k: int| i <= k < n ==> spec_transient(outcomes[k]),
        spec_total_backoff(p, jitters, n) > p.total_time_ceiling_ms,
    ensures
        spec_run(p, outcomes, jitters, i, spec_total_backoff(p, jitters, i)) == Err::<
            AttemptOutcome,
            ConnectError,
        >(ConnectError::RetryExhausted),
    decreases n - i,
{
    assert(spec_total_backoff(p, jitters, i + 1) == spec_total_backoff(p, jitters, i)
        + spec_jittered_delay(p, i, jitters[i as int]));
    if spec_total_backoff(p, jitters, i) + spec_jittered_delay(p, i, jitters[i as int])
        <= p.total_time_ceiling_ms {
        if i + 1 == n {
            assert(false);
        } else {
            lemma_run_exhausts_from(p, outcomes, jitters, i + 1, n);
        }
    }
}

/// A run whose first `n` outcomes are all transient ends in
/// [`ConnectError::RetryExhausted`] once the total wait before attempt `n`
/// passes the time ceiling: the later outcomes are never reached.
pub proof fn lemma_retry_exhausts(
    p: RetryPolicy,
    outcomes: Seq<AttemptOutcome>,
    jitters: Seq<u64>,
    n: nat,
)
    requires
        p.wf(),
        outcomes.len() == jitters.len(),
        0 < n <= outcomes.len(),
        forall|k: int| 0 <= k < n ==> spec_transient(outcomes[k]),
        spec_total_backoff(p, jitters, n) > p.total_time_ceiling_ms,
    ensures
        spec_run(p, outcomes, jitters, 0, 0) == Err::<AttemptOutcome, ConnectError>(
            ConnectError::RetryExhausted,
        ),
{
    lemma_run_exhausts_from(p, outcomes, jitters, 0, n);
}

/// A caller observes nothing but a settled outcome of the sequence or
/// retry exhaustion: a run never delivers a transient failure, and never
/// fails with anything but [`ConnectError::RetryExhausted`].
pub proof fn lemma_run_observes_settled_or_exhausted(
    p: RetryPolicy,
    outcomes: Seq<AttemptOutcome>,
    jitters: Seq<u64>,
    i: nat,
    elapsed: int,
)
    requires
        outcomes.len() == jitters.len(),
        i <= outcomes.len(),
    ensures
        spec_run(p, outcomes, jitters, i, elapsed) matches Ok(o) ==> !spec_transient(o) && (
        exists|k: int| i <= k < outcomes.len() && outcomes[k] == o),
        spec_run(p, outcomes, jitters, i, elapsed) is Err ==> spec_run(
            p,
            outcomes,
            jitters,
            i,
            elapsed,
        ) == Err::<AttemptOutcome, ConnectError>(ConnectError::RetryExhausted),
    decreases outcomes.len() - i,
{
    if i < outcomes.len() && spec_transient(outcomes[i as int]) {
        let d = spec_jittered_delay(p, i, jitters[i as int]);
        if elapsed + d <= p.total_time_ceiling_ms {
            lemma_run_observes_settled_or_exhausted(p, outcomes, jitters, i + 1, elapsed + d);
        }
    }
}

/// A settled first outcome — a client error such as a 400 response among
/// them — is delivered from exactly one attempt: no retry happens, whatever
/// outcomes follow.
pub proof fn lemma_settled_outcome_never_retried(
    p: RetryPolicy,
    outcomes: Seq<AttemptOutcome>,
    jitters: Seq<u64>,
)
    requires
        p.wf(),
        outcomes.len() == jitters.len(),
        outcomes.len() > 0,
        !spec_transient(outcomes[0]),
    ensures
        spec_run(p, outcomes, jitters, 0, 0) == Ok::<AttemptOutcome, ConnectError>(outcomes[0]),
{
}

} // verus!
