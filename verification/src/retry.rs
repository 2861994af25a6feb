//! The retry policy for one call: exponential backoff within a budget of
//! elapsed time.
//!
//! The waits come from `backoff::ExponentialBackoff`, which draws them at
//! random around an interval that grows with every failure, and which
//! reads the clock. So the policy is a function of the attempt's outcome,
//! of the time elapsed as the caller measured it, and of what the backoff
//! handed out: the caller makes the call and sleeps, the policy decides.

use vstd::prelude::*;

verus! {

/// The budget of elapsed time for one call and its retries, in seconds.
pub const RETRY_BUDGET_SECS: u64 = 30;

/// Nanoseconds in a second.
pub const NANOS_PER_SEC: u128 = 1_000_000_000;

#[verifier::external_type_specification]
#[verifier::external_body]
pub struct ExSystemClock(backoff::SystemClock);

#[verifier::external_type_specification]
#[verifier::external_body]
#[verifier::reject_recursive_types(C)]
pub struct ExExponentialBackoff<C>(backoff::exponential::ExponentialBackoff<C>);

/// `backoff::ExponentialBackoffBuilder::build`, after
/// `with_max_elapsed_time`. The backoff's clock starts here.
#[verifier::external_body]
fn backoff_build(max_elapsed_secs: u64) -> backoff::exponential::ExponentialBackoff<
    backoff::SystemClock,
> {
    backoff::ExponentialBackoffBuilder::new().with_max_elapsed_time(
        Some(std::time::Duration::from_secs(max_elapsed_secs)),
    ).build()
}

/// `backoff::backoff::Backoff::next_backoff`: the next wait in
/// nanoseconds, or `None` once the backoff's own clock is past its
/// budget. The wait is drawn at random, so nothing is promised of it.
#[verifier::external_body]
fn backoff_next(
    backoff: &mut backoff::exponential::ExponentialBackoff<backoff::SystemClock>,
) -> Option<u128> {
    backoff::backoff::Backoff::next_backoff(backoff).map(|wait| wait.as_nanos())
}

/// What follows a failed attempt.
#[derive(Debug, Clone, Copy, PartialEq, Eq, Structural)]
pub enum RetryDecision {
    /// Sleep for so many nanoseconds, then make the call again.
    RetryAfter(u128),
    /// Hand the failure to the caller.
    GiveUp,
}

/// The decision after a failure: give up once the elapsed time is past
/// the budget, once the backoff offers no wait, or where the wait would
/// carry past the budget; else retry after the wait offered.
pub open spec fn spec_decide(elapsed: u128, budget: u128, offered: Option<u128>) -> RetryDecision {
    if elapsed > budget {
        RetryDecision::GiveUp
    } else {
        match offered {
            Some(wait) => if elapsed + wait <= budget {
                RetryDecision::RetryAfter(wait)
            } else {
                RetryDecision::GiveUp
            },
            None => RetryDecision::GiveUp,
        }
    }
}

/// Decides what follows a failure after `elapsed` nanoseconds, given the
/// budget and the wait that the backoff offers.
pub fn decide(elapsed: u128, budget: u128, offered: Option<u128>) -> (d: RetryDecision)
    ensures
        d == spec_decide(elapsed, budget, offered),
{
    if elapsed > budget {
        return RetryDecision::GiveUp;
    }
    match offered {
        Some(wait) => {
            if wait <= budget - elapsed {
                RetryDecision::RetryAfter(wait)
            } else {
                RetryDecision::GiveUp
            }
        },
        None => RetryDecision::GiveUp,
    }
}

/// What the caller does after reporting an attempt.
#[derive(Debug)]
pub enum RetryStep<T, E> {
    /// Sleep for so many nanoseconds, then make the call again.
    Wait(u128),
    /// The call is over, with this result.
    Done(Result<T, E>),
}

/// The retry state of one call.
pub struct RetryPolicy {
    backoff: backoff::exponential::ExponentialBackoff<backoff::SystemClock>,
    budget: u128,
    attempts: u64,
}

impl RetryPolicy {
    /// The budget of elapsed time, in nanoseconds.
    pub closed spec fn budget_nanos(&self) -> u128 {
        self.budget
    }

    /// How many attempts have been reported.
    pub closed spec fn attempts_made(&self) -> u64 {
        self.attempts
    }

    /// A policy with a budget of `budget_secs` seconds, counted from now.
    pub fn with_budget(budget_secs: u64) -> (policy: RetryPolicy)
        ensures
            policy.budget_nanos() == budget_secs * NANOS_PER_SEC,
            policy.attempts_made() == 0,
    {
        RetryPolicy {
            backoff: backoff_build(budget_secs),
            budget: budget_secs as u128 * NANOS_PER_SEC,
            attempts: 0,
        }
    }

    /// The policy of every call of the client: a budget of
    /// `RETRY_BUDGET_SECS` seconds.
    pub fn new() -> (policy: RetryPolicy)
        ensures
            policy.budget_nanos() == RETRY_BUDGET_SECS * NANOS_PER_SEC,
            policy.attempts_made() == 0,
    {
        RetryPolicy::with_budget(RETRY_BUDGET_SECS)
    }

    /// How many attempts have been reported.
    pub fn attempts(&self) -> (n: u64)
        ensures
            n == self.attempts_made(),
    {
        self.attempts
    }

    /// Takes the outcome of an attempt that ended `elapsed` nanoseconds
    /// after the first one began. A success ends the call with its value.
    /// A failure ends it with that failure once the budget is spent, and
    /// else is followed by a wait that stays within the budget.
    pub fn next<T, E>(&mut self, outcome: Result<T, E>, elapsed: u128) -> (step: RetryStep<T, E>)
        ensures
            final(self).budget_nanos() == old(self).budget_nanos(),
            final(self).attempts_made() == if old(self).attempts_made() < u64::MAX {
                (old(self).attempts_made() + 1) as u64
            } else {
                u64::MAX
            },
            outcome is Ok ==> step == RetryStep::Done(outcome),
            outcome is Err ==> (step == RetryStep::Done(outcome) || step is Wait),
            outcome is Err && elapsed > old(self).budget_nanos() ==> step == RetryStep::Done(
                outcome,
            ),
            step matches RetryStep::Wait(wait) ==> elapsed + wait <= old(self).budget_nanos(),
    {
        if self.attempts < u64::MAX {
            self.attempts = self.attempts + 1;
        }
        match outcome {
            Ok(value) => RetryStep::Done(Ok(value)),
            Err(error) => {
                let offered = backoff_next(&mut self.backoff);
                match decide(elapsed, self.budget, offered) {
                    RetryDecision::RetryAfter(wait) => RetryStep::Wait(wait),
                    RetryDecision::GiveUp => RetryStep::Done(Err(error)),
                }
            },
        }
    }
}

} // verus!
