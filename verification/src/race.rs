//! The timer race: a handler delay against a watchdog timeout.

use vstd::prelude::*;

verus! {

/// Which branch of the timer race resolved first.
#[derive(Clone, Copy, Debug, PartialEq, Eq, Structural)]
pub enum RaceOutcome {
    /// The handler's own delay elapsed first: the handler completed.
    Completed,
    /// The watchdog fired first: the request timed out.
    TimedOut,
}

/// The winner of racing a handler delay of `d_handler_ms` against a watchdog
/// of `d_timeout_ms`. The watchdog wins ties, so a handler completes only
/// when it is strictly faster than the watchdog.
pub open spec fn race_winner(d_handler_ms: u64, d_timeout_ms: u64) -> RaceOutcome {
    if d_handler_ms < d_timeout_ms {
        RaceOutcome::Completed
    } else {
        RaceOutcome::TimedOut
    }
}

/// How long the race runs before it resolves: the shorter of the two delays.
pub open spec fn resolution_delay(d_handler_ms: u64, d_timeout_ms: u64) -> u64 {
    if d_handler_ms < d_timeout_ms {
        d_handler_ms
    } else {
        d_timeout_ms
    }
}

/// Decide the race between a handler delay and a watchdog timeout, returning
/// the winner and the time the race took to resolve.
pub fn resolve_race(d_handler_ms: u64, d_timeout_ms: u64) -> (r: (RaceOutcome, u64))
    ensures
        r.0 == race_winner(d_handler_ms, d_timeout_ms),
        r.1 == resolution_delay(d_handler_ms, d_timeout_ms),
{
    if d_handler_ms < d_timeout_ms {
        (RaceOutcome::Completed, d_handler_ms)
    } else {
        (RaceOutcome::TimedOut, d_timeout_ms)
    }
}

/// Law: when the two delays are equal the watchdog wins, deterministically.
pub proof fn lemma_tie_goes_to_watchdog(d_ms: u64)
    ensures
        race_winner(d_ms, d_ms) == RaceOutcome::TimedOut,
{
}

} // verus!
