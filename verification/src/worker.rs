//! The worker's decisions between trips to the store.
//!
//! A worker polls the retry queue in a loop. Each round it claims the jobs
//! that are due; the caller performs the claim and reports how it went, and
//! the worker state says what to do next.

use vstd::prelude::*;

use crate::config::AnyQueueConfig;
use crate::duration::Duration;
use crate::error::Error;
use crate::text::{decimal, decimal_text};

verus! {

/// Seconds a worker pauses after the store failed to hand out jobs.
pub const CLAIM_ERROR_PAUSE_SECS: u64 = 5;

/// How claiming due jobs from the retry queue went.
#[derive(Debug, Clone, Copy, PartialEq, Eq, Structural)]
pub enum ClaimResult {
    /// The store handed out this many jobs.
    Claimed(usize),
    /// The store reported an error.
    Failed,
}

/// What the worker does next.
#[derive(Debug)]
pub enum WorkerStep {
    /// Process the claimed jobs, then poll again.
    Process,
    /// Nothing is due: wait this long, then poll again.
    Idle(Duration),
    /// The store failed: pause, then wait the poll interval, then poll again.
    Recover { pause: Duration, then_wait: Duration },
    /// Too many consecutive store errors: stop with this error.
    Halt(Error),
}

/// The message with which a worker stops after `errors` consecutive errors.
pub open spec fn halt_message(errors: nat) -> Seq<char> {
    "Too many consecutive Redis errors ("@ + decimal(errors) + "). Worker stopping."@
}

/// The count of consecutive store errors after a claim.
pub open spec fn errors_after(errors: nat, result: ClaimResult) -> nat {
    match result {
        ClaimResult::Claimed(_) => 0,
        ClaimResult::Failed => errors + 1,
    }
}

/// Whether a claim makes the worker stop: it failed, and the errors in a row
/// reach `max_errors`.
pub open spec fn halts(errors: nat, max_errors: nat, result: ClaimResult) -> bool {
    result == ClaimResult::Failed && errors + 1 >= max_errors
}

/// What a worker remembers from one poll to the next.
#[derive(Debug, Clone, Copy)]
pub struct WorkerState {
    /// Store errors since the last successful claim.
    pub consecutive_errors: u32,
}

impl WorkerState {
    /// The state of a worker that has just started.
    pub fn new() -> (state: WorkerState)
        ensures
            state.consecutive_errors == 0,
    {
        WorkerState { consecutive_errors: 0 }
    }

    /// Take in how a claim went and decide the next step: claimed jobs are
    /// processed, an empty claim waits the poll interval, a failed claim
    /// pauses and retries until `max_consecutive_errors` failures in a row
    /// stop the worker. A successful claim resets the error count.
    pub fn on_claim(&mut self, config: &AnyQueueConfig, result: ClaimResult) -> (step: WorkerStep)
        requires
            old(self).consecutive_errors < u32::MAX,
        ensures
            final(self).consecutive_errors == errors_after(
                old(self).consecutive_errors as nat,
                result,
            ),
            match result {
                ClaimResult::Claimed(n) => if n > 0 {
                    step is Process
                } else {
                    step matches WorkerStep::Idle(wait) && wait@ == config.worker_poll_interval@
                },
                ClaimResult::Failed => if halts(
                    old(self).consecutive_errors as nat,
                    config.max_consecutive_errors as nat,
                    result,
                ) {
                    step matches WorkerStep::Halt(Error::Worker(msg)) && msg@ == halt_message(
                        final(self).consecutive_errors as nat,
                    )
                } else {
                    step matches WorkerStep::Recover { pause, then_wait } && pause@
                        == CLAIM_ERROR_PAUSE_SECS * 1_000_000_000 && then_wait@
                        == config.worker_poll_interval@
                },
            },
    {
        match result {
            ClaimResult::Claimed(n) => {
                self.consecutive_errors = 0;
                if n > 0 {
                    WorkerStep::Process
                } else {
                    WorkerStep::Idle(config.worker_poll_interval)
                }
            },
            ClaimResult::Failed => {
                self.consecutive_errors = self.consecutive_errors + 1;
                if self.consecutive_errors >= config.max_consecutive_errors {
                    let mut msg = String::from_str("Too many consecutive Redis errors (");
                    let count = decimal_text(self.consecutive_errors);
                    msg.append(count.as_str());
                    msg.append("). Worker stopping.");
                    WorkerStep::Halt(Error::Worker(msg))
                } else {
                    WorkerStep::Recover {
                        pause: Duration::from_secs(CLAIM_ERROR_PAUSE_SECS),
                        then_wait: config.worker_poll_interval,
                    }
                }
            },
        }
    }
}

} // verus!
