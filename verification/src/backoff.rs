//! How long to wait between attempts that may go on for ever, such as those of
//! a node to register with a metadata server that is not up yet.

use vstd::prelude::*;

verus! {

/// A rule for the wait before the next attempt.
#[derive(Clone, Copy, Debug, PartialEq, Eq, Structural)]
pub enum Backoff {
    /// The same wait before every attempt.
    Fixed { millis: u64 },
    /// A wait that starts at `first_millis` and doubles with every failed
    /// attempt, and is never longer than `max_millis`.
    Exponential { first_millis: u64, max_millis: u64 },
}

/// `first` doubled `times` times.
pub open spec fn doubled(first: nat, times: nat) -> nat
    decreases times,
{
    if times == 0 {
        first
    } else {
        2 * doubled(first, (times - 1) as nat)
    }
}

/// Doubling never makes a number smaller.
pub proof fn lemma_doubled_grows(first: nat, times: nat, later: nat)
    requires
        times <= later,
    ensures
        doubled(first, times) <= doubled(first, later),
    decreases later,
{
    if times < later {
        lemma_doubled_grows(first, times, (later - 1) as nat);
    }
}

impl Backoff {
    /// The wait, in milliseconds, after `failures` failed attempts.
    pub open spec fn wait_after(self, failures: nat) -> nat {
        match self {
            Backoff::Fixed { millis } => millis as nat,
            Backoff::Exponential { first_millis, max_millis } => {
                let grown = doubled(first_millis as nat, failures);
                if grown <= max_millis {
                    grown
                } else {
                    max_millis as nat
                }
            },
        }
    }

    /// The wait, in milliseconds, before the attempt that follows `failures`
    /// failed ones.
    pub fn delay(&self, failures: u32) -> (millis: u64)
        ensures
            millis == self.wait_after(failures as nat),
    {
        match self {
            Backoff::Fixed { millis } => *millis,
            Backoff::Exponential { first_millis, max_millis } => {
                let first = *first_millis;
                let max = *max_millis;
                let mut wait: u64 = first;
                let mut k: u32 = 0;
                while k < failures && wait <= max / 2
                    invariant
                        k <= failures,
                        wait == doubled(first as nat, k as nat),
                    decreases failures - k,
                {
                    wait = wait * 2;
                    k = k + 1;
                }
                proof {
                    if k < failures {
                        lemma_doubled_grows(first as nat, (k + 1) as nat, failures as nat);
                    }
                }
                if k < failures || wait > max {
                    max
                } else {
                    wait
                }
            },
        }
    }
}

/// A wait that doubles is never longer than its limit, never shorter than
/// after fewer failures, and a fixed wait is always the same.
pub proof fn lemma_backoff_bounds(backoff: Backoff, failures: nat, later: nat)
    requires
        failures <= later,
    ensures
        backoff.wait_after(failures) <= backoff.wait_after(later),
        backoff matches Backoff::Exponential { max_millis, .. } ==> backoff.wait_after(failures)
            <= max_millis,
        backoff matches Backoff::Fixed { millis } ==> backoff.wait_after(failures) == millis,
{
    if let Backoff::Exponential { first_millis, .. } = backoff {
        lemma_doubled_grows(first_millis as nat, failures, later);
    }
}

} // verus!
