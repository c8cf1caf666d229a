//! The schedule on which a failed connection is tried again: the wait
//! doubles from one second up to ten and stays there.

use vstd::prelude::*;
use crate::time::Span;

verus! {

/// Seconds to wait after the first failure.
pub const FIRST_DELAY_SECS: u64 = 1;

/// The longest wait between two attempts, in seconds.
pub const MAX_DELAY_SECS: u64 = 10;

/// The wait after the first failure, in nanoseconds.
pub open spec fn first_delay() -> nat {
    1_000_000_000
}

/// The longest wait between two attempts, in nanoseconds.
pub open spec fn max_delay() -> nat {
    10_000_000_000
}

/// The wait that follows a wait of `delay`: twice as long, but no longer
/// than the longest wait.
pub open spec fn next_delay(delay: nat) -> nat {
    if 2 * delay <= max_delay() {
        2 * delay
    } else {
        max_delay()
    }
}

/// The wait after the failure with number `failures`, counted from 0.
pub open spec fn nth_delay(failures: nat) -> nat
    decreases failures,
{
    if failures == 0 {
        first_delay()
    } else {
        next_delay(nth_delay((failures - 1) as nat))
    }
}

/// Where a retry loop stands on the schedule. Its view is the wait that
/// the next failure brings, in nanoseconds.
#[derive(Clone, Copy, Debug)]
pub struct Backoff {
    delay: Span,
}

impl View for Backoff {
    type V = nat;

    closed spec fn view(&self) -> nat {
        self.delay@
    }
}

/// What a retry loop does after an attempt.
pub enum Turn<T, E> {
    /// The attempt succeeded: the loop ends with its result.
    Return(T),
    /// The attempt failed with `error`, in a way that a later attempt may
    /// not: the loop sleeps for `wait` and tries again.
    SleepThenRetry { wait: Span, error: E },
    /// The attempt failed with `error`, and every later attempt would: the
    /// loop ends with the error.
    Fail(E),
}

impl Backoff {
    /// The start of the schedule.
    pub fn new() -> (backoff: Backoff)
        ensures
            backoff@ == first_delay(),
            backoff@ == nth_delay(0),
    {
        Backoff { delay: Span::from_secs(FIRST_DELAY_SECS) }
    }

    /// The wait that the next failure brings.
    pub fn delay(&self) -> (delay: Span)
        ensures
            delay@ == self@,
    {
        self.delay
    }

    /// Takes one failure: returns the wait it brings and moves on along
    /// the schedule.
    pub fn fail(&mut self) -> (wait: Span)
        ensures
            wait@ == old(self)@,
            final(self)@ == next_delay(old(self)@),
    {
        let wait = self.delay;
        let cap = Span::from_secs(MAX_DELAY_SECS);
        self.delay = wait.doubled_up_to(&cap);
        wait
    }

    /// One turn of a retry loop. A success is returned as it is and leaves
    /// the schedule alone. A failure that is `fatal`, one that no later
    /// attempt can get around, ends the loop with its error and leaves the
    /// schedule alone too. Any other failure is answered by a sleep of the
    /// current wait, and the schedule moves on: however many such failures
    /// come, the loop goes on.
    pub fn turn<T, E>(&mut self, attempt: Result<T, E>, fatal: bool) -> (turn: Turn<T, E>)
        ensures
            match attempt {
                Ok(value) => turn == Turn::<T, E>::Return(value) && final(self)@ == old(self)@,
                Err(error) => if fatal {
                    turn == Turn::<T, E>::Fail(error) && final(self)@ == old(self)@
                } else {
                    &&& turn matches Turn::SleepThenRetry { wait, error: reported }
                    &&& reported == error
                    &&& wait@ == old(self)@
                    &&& final(self)@ == next_delay(old(self)@)
                },
            },
    {
        match attempt {
            Ok(value) => Turn::Return(value),
            Err(error) => {
                if fatal {
                    Turn::Fail(error)
                } else {
                    let wait = self.fail();
                    Turn::SleepThenRetry { wait, error }
                }
            },
        }
    }
}

/// A loop that starts at the start of the schedule and takes one failure
/// after another goes along the schedule: if the next failure brings the
/// wait with number `failures`, the one after it brings the wait with
/// number `failures + 1`.
pub proof fn lemma_schedule_step(failures: nat, wait: nat)
    requires
        wait == nth_delay(failures),
    ensures
        next_delay(wait) == nth_delay(failures + 1),
{
}

/// Every wait on the schedule lies between the first and the longest.
pub proof fn lemma_delay_bounds(failures: nat)
    ensures
        first_delay() <= nth_delay(failures) <= max_delay(),
    decreases failures,
{
    if failures > 0 {
        lemma_delay_bounds((failures - 1) as nat);
    }
}

/// The waits never get shorter.
pub proof fn lemma_delay_monotone(earlier: nat, later: nat)
    requires
        earlier <= later,
    ensures
        nth_delay(earlier) <= nth_delay(later),
    decreases later,
{
    if earlier < later {
        lemma_delay_monotone(earlier, (later - 1) as nat);
        lemma_delay_bounds((later - 1) as nat);
    }
}

/// The schedule in full: 1, 2, 4 and 8 seconds, and 10 seconds from the
/// fifth failure on.
pub proof fn lemma_delay_values(failures: nat)
    ensures
        failures == 0 ==> nth_delay(failures) == 1_000_000_000,
        failures == 1 ==> nth_delay(failures) == 2_000_000_000,
        failures == 2 ==> nth_delay(failures) == 4_000_000_000,
        failures == 3 ==> nth_delay(failures) == 8_000_000_000,
        failures >= 4 ==> nth_delay(failures) == 10_000_000_000,
    decreases failures,
{
    reveal_with_fuel(nth_delay, 5);
    if failures > 4 {
        lemma_delay_values((failures - 1) as nat);
    }
}

} // verus!
