//! The bounded wait on a running process: while it runs, the embedding
//! program asks what to do next, and stops the process once the time allowed
//! has passed.

use vstd::prelude::*;

verus! {

/// The longest pause, in milliseconds, between two looks at a running process.
pub const POLL_INTERVAL_MS: u64 = 10;

/// The time, in milliseconds, that one run of the tool may take.
pub const DEFAULT_TIMEOUT_MS: u64 = 60000;

/// What to do with a process that is being waited on.
#[derive(Debug, Clone, Copy, PartialEq, Eq)]
pub enum WaitAction {
    /// It has exited: collect its status and output.
    Collect,
    /// Its time is up: stop it and report a timeout.
    Stop,
    /// Pause this many milliseconds, then look again.
    Pause(u64),
}

/// The pause before the next look: the polling interval, cut short so that
/// the next look falls no later than the deadline.
pub open spec fn pause_length(elapsed_ms: u64, limit_ms: u64) -> u64 {
    if limit_ms - elapsed_ms < POLL_INTERVAL_MS {
        (limit_ms - elapsed_ms) as u64
    } else {
        POLL_INTERVAL_MS
    }
}

/// What to do after `elapsed_ms` milliseconds of a run that may take
/// `limit_ms`, given whether the process has exited. An exited process is
/// always collected, even at the deadline.
pub fn next_wait_action(exited: bool, elapsed_ms: u64, limit_ms: u64) -> (a: WaitAction)
    ensures
        exited ==> a == WaitAction::Collect,
        !exited && elapsed_ms >= limit_ms ==> a == WaitAction::Stop,
        !exited && elapsed_ms < limit_ms ==> a == WaitAction::Pause(pause_length(elapsed_ms, limit_ms)),
        a matches WaitAction::Pause(d) ==> 0 < d <= POLL_INTERVAL_MS && elapsed_ms + d <= limit_ms,
{
    if exited {
        WaitAction::Collect
    } else if elapsed_ms >= limit_ms {
        WaitAction::Stop
    } else {
        let left = limit_ms - elapsed_ms;
        if left < POLL_INTERVAL_MS {
            WaitAction::Pause(left)
        } else {
            WaitAction::Pause(POLL_INTERVAL_MS)
        }
    }
}

} // verus!
