//! The connection supervisor's retry policy: how long a relay keeps trying
//! to reach the broker before it gives up and fails the process.

use vstd::prelude::*;

verus! {

/// Fixed pause between connect attempts.
pub const CONNECT_RETRY_DELAY_MS: u64 = 2000;

/// How many failed attempts a reconnect tolerates once the broker has been
/// reachable before: after that the process should fail loudly rather than
/// spin forever against a broker it once could reach.
pub const RECONNECT_MAX_ATTEMPTS: u32 = 10;

/// What to do after a failed connect attempt.
#[derive(Clone, Copy, Debug, PartialEq, Eq, Structural)]
pub enum RetryAction {
    /// Wait this long, then try again.
    Retry { delay_ms: u64 },
    /// The budget is spent: fail the process.
    GiveUp,
}

/// The patience of one connect attempt sequence: failed attempts so far
/// against the most that are tolerated, where zero means unbounded.
#[derive(Clone, Copy, Debug, PartialEq, Eq, Structural)]
pub struct RetryBudget {
    pub attempts: u32,
    pub max_attempts: u32,
}

impl RetryBudget {
    /// The budget a connect attempt sequence starts with. The very first
    /// connection in a process's life blocks until the broker becomes
    /// reachable — the relay can do nothing useful before that — while
    /// later reconnects get a small bounded budget.
    pub fn for_attempt(connected_once: bool) -> (r: RetryBudget)
        ensures
            r.attempts == 0,
            r.max_attempts == if connected_once {
                RECONNECT_MAX_ATTEMPTS
            } else {
                0u32
            },
    {
        RetryBudget {
            attempts: 0,
            max_attempts: if connected_once {
                RECONNECT_MAX_ATTEMPTS
            } else {
                0
            },
        }
    }

    /// Record one failed attempt and say whether to keep trying: an
    /// unbounded budget always retries after the fixed delay, a bounded one
    /// gives up once its attempts are spent.
    pub fn record_failure(&mut self) -> (r: RetryAction)
        ensures
            final(self).max_attempts == old(self).max_attempts,
            old(self).max_attempts == 0 ==> {
                &&& r == RetryAction::Retry { delay_ms: CONNECT_RETRY_DELAY_MS }
                &&& final(self).attempts == old(self).attempts
            },
            old(self).max_attempts > 0 && old(self).attempts < old(self).max_attempts ==> {
                &&& r == RetryAction::Retry { delay_ms: CONNECT_RETRY_DELAY_MS }
                &&& final(self).attempts == old(self).attempts + 1
            },
            old(self).max_attempts > 0 && old(self).attempts >= old(self).max_attempts ==> {
                &&& r == RetryAction::GiveUp
                &&& final(self).attempts == old(self).attempts
            },
    {
        if self.max_attempts == 0 {
            RetryAction::Retry { delay_ms: CONNECT_RETRY_DELAY_MS }
        } else if self.attempts < self.max_attempts {
            self.attempts = self.attempts + 1;
            RetryAction::Retry { delay_ms: CONNECT_RETRY_DELAY_MS }
        } else {
            RetryAction::GiveUp
        }
    }
}

} // verus!
