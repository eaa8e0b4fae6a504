//! How often a failing call is made again, and how long to wait in between.

use vstd::prelude::*;

use crate::persistence::outbox::{full_jitter_backoff, longest_wait};
use crate::time::Span;

verus! {

/// The budget of a call that may fail: so many attempts, so much time, and a
/// growing random wait in between.
#[derive(Debug, Clone, Copy, PartialEq, Eq, Structural)]
pub struct RetryConfig {
    pub max_attempts: u32,
    pub max_elapsed: Span,
    pub backoff_base: Span,
    pub backoff_cap: Span,
}

impl Default for RetryConfig {
    fn default() -> (r: RetryConfig)
        ensures
            r.valid(),
            r.max_attempts == 8,
            r.max_elapsed.length() == 600_000_000_000,
            r.backoff_base.length() == 100_000_000,
            r.backoff_cap.length() == 30_000_000_000,
    {
        RetryConfig {
            max_attempts: 8,
            max_elapsed: Span::from_secs(600),
            backoff_base: Span::from_millis(100),
            backoff_cap: Span::from_secs(30),
        }
    }
}

impl RetryConfig {
    /// The spans are well formed.
    pub open spec fn valid(self) -> bool {
        self.max_elapsed.valid() && self.backoff_base.valid() && self.backoff_cap.valid()
    }

    /// The budget is spent after `attempts` failed attempts in `elapsed`.
    pub open spec fn spent(self, attempts: u32, elapsed: Span) -> bool {
        attempts >= self.max_attempts || elapsed.length() >= self.max_elapsed.length()
    }
}

/// What to do after a failed attempt.
#[derive(Debug, Clone, Copy, PartialEq, Eq, Structural)]
pub enum RetryStep {
    /// Wait, then call again.
    Wait(Span),
    /// The budget is spent.
    GiveUp,
}

/// What to do after the `attempts`-th attempt failed, `elapsed` after the
/// first began.
pub fn after_failure(config: &RetryConfig, attempts: u32, elapsed: Span) -> (r: RetryStep)
    requires
        config.valid(),
        elapsed.valid(),
        attempts >= 1,
    ensures
        match r {
            RetryStep::GiveUp => config.spent(attempts, elapsed),
            RetryStep::Wait(wait) => {
                &&& !config.spent(attempts, elapsed)
                &&& wait.valid()
                &&& 0 <= wait.length() <= longest_wait(
                    (attempts - 1) as u32,
                    config.backoff_base,
                    config.backoff_cap,
                )
            },
        },
{
    if attempts >= config.max_attempts || elapsed.as_nanos() >= config.max_elapsed.as_nanos() {
        RetryStep::GiveUp
    } else {
        RetryStep::Wait(
            full_jitter_backoff(attempts - 1, config.backoff_base, config.backoff_cap),
        )
    }
}

/// A call that is being retried: how often it was made.
#[derive(Debug, Clone, Copy, PartialEq, Eq, Structural)]
pub struct RetryRun {
    pub attempts: u32,
}

/// What a retried call comes to next.
#[derive(Debug)]
pub enum RunStep<T> {
    /// Make the call.
    Call,
    /// Wait, then make the call.
    WaitThenCall(Span),
    /// The call succeeded.
    Done(T),
    /// The budget is spent.
    Exhausted,
}

impl RetryRun {
    /// Begins a run. Without a single attempt in the budget it is over before
    /// the first call.
    pub fn begin<T>(config: &RetryConfig) -> (r: (RetryRun, RunStep<T>))
        ensures
            if config.max_attempts > 0 {
                r.0.attempts == 1 && r.1 is Call
            } else {
                r.0.attempts == 0 && r.1 is Exhausted
            },
    {
        if config.max_attempts > 0 {
            (RetryRun { attempts: 1 }, RunStep::Call)
        } else {
            (RetryRun { attempts: 0 }, RunStep::Exhausted)
        }
    }

    /// Goes on after the call that was made last. Every further call counts
    /// one more attempt, and none is made beyond the budget.
    pub fn proceed<T, E>(
        &mut self,
        config: &RetryConfig,
        result: Result<T, E>,
        elapsed: Span,
    ) -> (r: RunStep<T>)
        requires
            config.valid(),
            elapsed.valid(),
            old(self).attempts >= 1,
        ensures
            match result {
                Ok(value) => r == RunStep::Done(value) && *final(self) == *old(self),
                Err(_) => if config.spent(old(self).attempts, elapsed) {
                    r is Exhausted && *final(self) == *old(self)
                } else {
                    &&& r is WaitThenCall
                    &&& r->WaitThenCall_0.valid()
                    &&& 0 <= r->WaitThenCall_0.length() <= longest_wait(
                        (old(self).attempts - 1) as u32,
                        config.backoff_base,
                        config.backoff_cap,
                    )
                    &&& final(self).attempts == old(self).attempts + 1
                    &&& final(self).attempts <= config.max_attempts
                },
            },
    {
        match result {
            Ok(value) => RunStep::Done(value),
            Err(_) => match after_failure(config, self.attempts, elapsed) {
                RetryStep::GiveUp => RunStep::Exhausted,
                RetryStep::Wait(wait) => {
                    self.attempts = self.attempts + 1;
                    RunStep::WaitThenCall(wait)
                },
            },
        }
    }
}

/// A budget is spent exactly when as many attempts were made as it has, or as
/// much time has passed as it has.
pub proof fn budgets_are_spent_by_attempts_or_time(
    config: RetryConfig,
    attempts: u32,
    elapsed: Span,
)
    ensures
        config.spent(attempts, elapsed) <==> config.max_attempts <= attempts
            || config.max_elapsed.secs * 1_000_000_000 + config.max_elapsed.nanos <= elapsed.secs
            * 1_000_000_000 + elapsed.nanos,
{
}

/// After a failure the call is given up exactly when the budget is spent, and
/// otherwise made again after a wait that the attempts so far bound; every
/// further call counts one attempt, and a result ends the run.
pub proof fn runs_end_with_a_result_or_the_budget(
    run: &mut RetryRun,
    config: &RetryConfig,
    result: Result<u64, u64>,
    elapsed: Span,
    r: RunStep<u64>,
    attempts: u32,
    next: RetryStep,
    begun: (RetryRun, RunStep<u64>),
)
    requires
        old(run).attempts >= 1,
    ensures
        call_ensures(RetryRun::begin::<u64>, (config,), begun) ==> {
            let (first, told) = begun;
            &&& told is Call <==> config.max_attempts > 0
            &&& told is Exhausted <==> config.max_attempts == 0
            &&& config.max_attempts > 0 ==> first.attempts == 1
        },
        call_ensures(RetryRun::proceed::<u64, u64>, (run, config, result, elapsed), r) ==> {
            let spent = config.max_attempts <= old(run).attempts || config.max_elapsed.secs
                * 1_000_000_000 + config.max_elapsed.nanos <= elapsed.secs * 1_000_000_000
                + elapsed.nanos;
            &&& result is Ok ==> r == RunStep::<u64>::Done(result->Ok_0)
            &&& result is Err && spent ==> r is Exhausted && final(run).attempts
                == old(run).attempts
            &&& result is Err && !spent ==> {
                &&& r is WaitThenCall
                &&& final(run).attempts == old(run).attempts + 1
                &&& r->WaitThenCall_0.secs * 1_000_000_000 + r->WaitThenCall_0.nanos
                    <= longest_wait(
                    (old(run).attempts - 1) as u32,
                    config.backoff_base,
                    config.backoff_cap,
                )
            }
        },
        attempts >= 1 && call_ensures(after_failure, (config, attempts, elapsed), next) ==> {
            let spent = config.max_attempts <= attempts || config.max_elapsed.secs * 1_000_000_000
                + config.max_elapsed.nanos <= elapsed.secs * 1_000_000_000 + elapsed.nanos;
            &&& next is GiveUp <==> spent
            &&& next is Wait ==> next->Wait_0.secs * 1_000_000_000 + next->Wait_0.nanos
                <= longest_wait((attempts - 1) as u32, config.backoff_base, config.backoff_cap)
        },
{
}

}
