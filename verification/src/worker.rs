//! The polling worker: one account's cancellable fetch-and-forward loop.
//!
//! A worker is a state machine with two states, Running and Terminated.
//! While Running, each cycle performs one fetch-and-forward attempt (the
//! I/O itself is the embedding's part), routes the outcome through the
//! worker's own circuit breaker, and — if still Running — sleeps a fixed
//! interval before the next cycle.  Cancellation at any suspension point
//! terminates the worker with no further side effects; in particular a
//! terminated worker never executes another fetch.

use vstd::prelude::*;
use crate::domain::IncomingNotification;
use crate::error::{kind_of, next_failure_count, Breaker, IsTransient, BREAKER_THRESHOLD};
use crate::poll_spawner::Error;
use crate::stack_overflow::{AccountId, Notification};

verus! {

/// How long a worker sleeps between successful or suppressed cycles.
pub const POLL_INTERVAL_SECONDS: u64 = 60;

/// Why a worker left the Running state.
#[derive(Debug, PartialEq, Eq)]
pub enum Termination {
    /// Cancelled at a suspension point (its account re-registered).
    Cancelled,
    /// Failed: a fatal attempt error, or a tripped breaker.
    Failed(Error),
}

/// The two states of a worker's loop.
#[derive(Debug, PartialEq, Eq)]
pub enum WorkerStatus {
    Running,
    Terminated(Termination),
}

/// One account's polling worker: its identity, its own breaker (counter
/// zero on start), and where its loop stands.
#[derive(Debug)]
pub struct Worker {
    /// The account this worker polls for.
    pub account_id: AccountId,
    /// The worker's own circuit breaker.
    pub breaker: Breaker,
    /// Where the worker's loop stands.
    pub status: WorkerStatus,
}

impl Worker {
    /// The breaker's count of consecutive transient failures.
    pub open spec fn failures(self) -> nat {
        self.breaker.count()
    }

    /// Executable form of [`Worker::failures`].
    pub fn current_failures(&self) -> (n: usize)
        ensures
            n as nat == self.failures(),
    {
        self.breaker.failures()
    }

    /// A worker just started for an account: Running, with a fresh breaker.
    pub fn new(account_id: AccountId) -> (w: Worker)
        ensures
            w.account_id == account_id,
            w.status is Running,
            w.failures() == 0,
    {
        Worker { account_id, breaker: Breaker::default(), status: WorkerStatus::Running }
    }

    /// Route one fetch-and-forward attempt's outcome through the breaker.
    ///
    /// A success is discarded beyond the breaker's bookkeeping; a transient
    /// failure below the threshold is suppressed and the worker stays
    /// Running (and will sleep before the next cycle); a fatal failure
    /// terminates the worker with that error at once; the transient failure
    /// that reaches the threshold terminates it with the distinguished
    /// too-many-transient-failures error.
    pub fn on_attempt(&mut self, outcome: Result<(), Error>)
        requires
            old(self).status is Running,
        ensures
            final(self).account_id == old(self).account_id,
            final(self).failures() == next_failure_count(old(self).failures(), kind_of(outcome)),
            match outcome {
                Ok(v) => final(self).status is Running,
                Err(e) => if e.transient() {
                    if old(self).failures() + 1 < BREAKER_THRESHOLD as nat {
                        final(self).status is Running
                    } else {
                        final(self).status == WorkerStatus::Terminated(
                            Termination::Failed(
                                Error::TooManyTransientFailures {
                                    source: crate::error::BreakerError {},
                                },
                            ),
                        )
                    }
                } else {
                    final(self).status == WorkerStatus::Terminated(Termination::Failed(e))
                },
            },
    {
        let checked = self.breaker.check(outcome);
        match checked {
            Ok(Some(Ok(()))) => {}
            Ok(None) => {}
            Ok(Some(Err(e))) => {
                self.status = WorkerStatus::Terminated(Termination::Failed(e));
            }
            Err(tripped) => {
                self.status = WorkerStatus::Terminated(
                    Termination::Failed(Error::TooManyTransientFailures { source: tripped }),
                );
            }
        }
    }

    /// Cancellation reached the worker at a suspension point: a Running
    /// worker terminates as Cancelled with no further side effects; a
    /// worker already terminated is left as it ended.
    pub fn on_cancel(&mut self)
        ensures
            final(self).account_id == old(self).account_id,
            final(self).failures() == old(self).failures(),
            old(self).status is Running ==> final(self).status == WorkerStatus::Terminated(
                Termination::Cancelled,
            ),
            !(old(self).status is Running) ==> final(self).status == old(self).status,
    {
        let running = match &self.status {
            WorkerStatus::Running => true,
            _ => false,
        };
        if running {
            self.status = WorkerStatus::Terminated(Termination::Cancelled);
        }
    }
}

/// Tag one fetch round's notifications with the account they were polled
/// for, in order, ready for forwarding.
pub fn to_incoming(account_id: AccountId, notifications: Vec<Notification>) -> (r: Vec<
    IncomingNotification,
>)
    ensures
        r@.len() == notifications@.len(),
        forall|i: int|
            0 <= i < notifications@.len() ==> {
                &&& (#[trigger] r@[i]).account_id == account_id
                &&& r@[i].text == notifications@[i].body
            },
{
    let ghost fetched = notifications@;
    let mut r: Vec<IncomingNotification> = Vec::new();
    let mut notifications = notifications;
    while notifications.len() > 0
        invariant
            r@.len() + notifications@.len() == fetched.len(),
            notifications@ =~= fetched.skip(r@.len() as int),
            forall|i: int|
                0 <= i < r@.len() ==> {
                    &&& (#[trigger] r@[i]).account_id == account_id
                    &&& r@[i].text == fetched[i].body
                },
        decreases notifications@.len(),
    {
        let item = notifications.remove(0);
        proof {
            assert(notifications@ =~= fetched.skip(r@.len() as int + 1));
        }
        r.push(IncomingNotification { account_id, text: item.body });
    }
    r
}

} // verus!
