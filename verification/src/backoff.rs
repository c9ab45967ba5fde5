//! The retry policy for reading a snapshot from the catalog: exponential
//! backoff with a cap, and a step function that treats every catalog error
//! as transient.
//!
//! The engine never sleeps itself; a caller runs the loop, performs the
//! catalog read, hands each outcome to `retry_step`, and sleeps for the
//! delay it is told. The operation has no failure path: it retries until a
//! read succeeds.

use crate::catalog::{CatalogError, TableSnapshot};
use vstd::prelude::*;

verus! {

/// Configuration of the backoff schedule: the first delay, the cap, and the
/// multiplier applied after every failed attempt.
#[derive(Clone, Copy, Debug, PartialEq, Eq, Structural)]
pub struct BackoffConfig {
    /// Delay before the second attempt, in milliseconds.
    pub init_backoff_millis: u64,
    /// Largest delay ever waited, in milliseconds.
    pub max_backoff_millis: u64,
    /// Factor by which the delay grows after each failure.
    pub base: u64,
}

impl BackoffConfig {
    /// A usable schedule: the delay grows (or at least does not vanish) and
    /// starts at or below the cap.
    pub open spec fn wf(&self) -> bool {
        1 <= self.base && self.init_backoff_millis <= self.max_backoff_millis
    }
}

impl Default for BackoffConfig {
    /// Start at 100 ms, triple after every failure, never wait more than
    /// 500 s.
    fn default() -> (r: Self)
        ensures
            r == (BackoffConfig {
                init_backoff_millis: 100,
                max_backoff_millis: 500_000,
                base: 3,
            }),
            r.wf(),
    {
        BackoffConfig { init_backoff_millis: 100, max_backoff_millis: 500_000, base: 3 }
    }
}

/// The state of one retry sequence: the configuration and the delay the next
/// failure will incur.
#[derive(Clone, Copy, Debug)]
pub struct Backoff {
    pub config: BackoffConfig,
    pub next_delay_millis: u64,
}

/// How one failed attempt moves the schedule along: the delay is multiplied
/// by the base, saturating at the cap.
pub open spec fn advances_schedule(pre: Backoff, post: Backoff) -> bool {
    &&& post.config == pre.config
    &&& post.next_delay_millis as int == vstd::math::min(
        pre.next_delay_millis as int * pre.config.base as int,
        pre.config.max_backoff_millis as int,
    )
}

impl Backoff {
    /// The delay never exceeds the cap.
    pub open spec fn wf(&self) -> bool {
        self.config.wf() && self.next_delay_millis <= self.config.max_backoff_millis
    }

    /// A fresh schedule, starting at the configured first delay.
    pub fn new(config: BackoffConfig) -> (b: Backoff)
        requires
            config.wf(),
        ensures
            b.wf(),
            b.config == config,
            b.next_delay_millis == config.init_backoff_millis,
    {
        Backoff { config, next_delay_millis: config.init_backoff_millis }
    }

    /// The delay to wait now; the delay for the next failure grows by the
    /// base, up to the cap, so successive delays never shrink.
    pub fn next_backoff(&mut self) -> (delay: u64)
        requires
            old(self).wf(),
        ensures
            final(self).wf(),
            delay == old(self).next_delay_millis,
            advances_schedule(*old(self), *final(self)),
            final(self).next_delay_millis >= old(self).next_delay_millis,
    {
        let delay = self.next_delay_millis;
        let cap = self.config.max_backoff_millis;
        let base = self.config.base;
        if delay <= cap / base {
            proof {
                assert((delay as int) * (base as int) <= cap as int) by (nonlinear_arith)
                    requires
                        1 <= base as int,
                        0 <= delay as int,
                        0 <= cap as int,
                        delay as int <= cap as int / base as int;
                assert(delay as int <= (delay as int) * (base as int)) by (nonlinear_arith)
                    requires
                        1 <= base as int,
                        0 <= delay as int;
            }
            self.next_delay_millis = delay * base;
        } else {
            proof {
                assert(cap as int <= (delay as int) * (base as int)) by (nonlinear_arith)
                    requires
                        1 <= base as int,
                        0 <= cap as int,
                        (cap as int) / (base as int) < (delay as int);
            }
            self.next_delay_millis = cap;
        }
        delay
    }
}

/// What the retry loop decides after one attempt to read a snapshot.
#[derive(Debug)]
pub enum RetryDecision {
    /// The read committed; this snapshot is the result.
    Done(TableSnapshot),
    /// The read failed; wait this many milliseconds and try again.
    RetryAfter(u64),
}

/// Decide what to do with the outcome of one catalog read: a success is
/// final and returns exactly the snapshot that was read; any error is
/// treated as transient, costs the current backoff delay, and advances the
/// schedule. No error ends the loop, so the operation either succeeds or
/// keeps retrying.
pub fn retry_step(backoff: &mut Backoff, outcome: Result<TableSnapshot, CatalogError>) -> (d:
    RetryDecision)
    requires
        old(backoff).wf(),
    ensures
        final(backoff).wf(),
        outcome is Ok ==> d == RetryDecision::Done(outcome->Ok_0) && *final(backoff) == *old(
            backoff,
        ),
        outcome is Err ==> d == RetryDecision::RetryAfter(old(backoff).next_delay_millis)
            && advances_schedule(*old(backoff), *final(backoff)),
{
    match outcome {
        Ok(snapshot) => RetryDecision::Done(snapshot),
        Err(_) => RetryDecision::RetryAfter(backoff.next_backoff()),
    }
}

} // verus!
