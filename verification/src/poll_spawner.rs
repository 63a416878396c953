//! The poll spawner: the supervisor actor that owns the table of polling
//! workers.
//!
//! The supervisor keeps one cancellation handle per registered account.
//! Dispatching a registration stores the new worker's handle in the table
//! and, when the account already had a worker, aborts the displaced handle
//! in the same dispatch turn — so the replacement is atomic from the
//! caller's point of view, and the old worker stops at its next suspension
//! point.  Spawning the worker's future is the embedding's job: each
//! dispatch turn hands back a [`WorkerSpawn`] order carrying the abort
//! registration the new worker must be bound to.
//!
//! The supervisor also observes worker completions: a stale completion of a
//! replaced worker is ignored, while a worker that failed ends the
//! supervisor itself ([`on_child_exit`]).

use vstd::prelude::*;
use std::collections::HashMap;
use crate::actor::{Actor, ActorState};
use crate::error::{BreakerError, IsTransient};
use crate::stack_overflow::{AccessToken, AccountId, UnreadNotificationsError};

verus! {

/// futures_util's cancellation capability for one spawned future; the
/// worker table stores one per account.  Opaque to verification: what is
/// known of it is stated at the two calls below.
#[verifier::external_type_specification]
#[verifier::external_body]
pub struct ExAbortHandle(futures_util::future::AbortHandle);

/// futures_util's registration half of a cancellation pair; the future a
/// worker runs is bound to it.  Opaque to verification; the core only
/// carries it through to the embedding.
#[verifier::external_type_specification]
#[verifier::external_body]
pub struct ExAbortRegistration(futures_util::future::AbortRegistration);

/// Relies on futures_util::future::AbortHandle::new_pair: a fresh handle
/// and the registration it aborts, for binding one worker's future.
pub assume_specification[ futures_util::future::AbortHandle::new_pair ]() -> (pair: (
    futures_util::future::AbortHandle,
    futures_util::future::AbortRegistration,
));

/// Relies on futures_util::future::AbortHandle::abort: the future bound to
/// the handle's registration completes at its next poll without making
/// further progress.
pub assume_specification[ futures_util::future::AbortHandle::abort ](
    handle: &futures_util::future::AbortHandle,
);

/// The supervisor's one command: start (or restart) polling for an account.
///
/// It carries the credential the worker polls with and the freshly made
/// cancellation pair the worker will be bound to.
pub struct StartPolling {
    pub account_id: AccountId,
    pub access_token: AccessToken,
    /// The handle the supervisor keeps, to cancel this worker on replacement.
    pub stop: futures_util::future::AbortHandle,
    /// The registration the embedding binds the worker's future to.
    pub run: futures_util::future::AbortRegistration,
}

/// One dispatch turn's order to the embedding: spawn a worker for this
/// account, bound to this registration.
pub struct WorkerSpawn {
    pub account_id: AccountId,
    pub access_token: AccessToken,
    /// Bind the worker's future to this registration; the supervisor holds
    /// the matching handle.
    pub run: futures_util::future::AbortRegistration,
}

/// The supervisor's private state: the table from account identity to the
/// cancellation handle of that account's current worker.
///
/// An entry is inserted when a worker is spawned and overwritten (aborting
/// the previous handle) when the same account registers again; a worker
/// that exits on its own leaves a stale, already-inert entry behind.
pub struct PollSpawner {
    pollers: HashMap<i32, futures_util::future::AbortHandle>,
}

impl PollSpawner {
    /// The worker table: account identity to current cancellation handle.
    pub closed spec fn table(self) -> Map<i32, futures_util::future::AbortHandle> {
        self.pollers@
    }

    /// A supervisor with no workers.
    pub fn new() -> (s: Self)
        ensures
            s.table() == Map::<i32, futures_util::future::AbortHandle>::empty(),
    {
        PollSpawner { pollers: HashMap::new() }
    }
}

impl ActorState for PollSpawner {
    type Command = StartPolling;

    type Response = WorkerSpawn;

    /// One dispatch turn: the command's handle replaces the account's table
    /// entry, and the spawn order echoes the registration data.  (The
    /// displaced handle, if any, is aborted in the same turn; that effect
    /// lives on the cancelled worker, not in this state.)
    open spec fn next(
        pre: Self,
        command: StartPolling,
        post: Self,
        response: WorkerSpawn,
    ) -> bool {
        &&& post.table() == pre.table().insert(command.account_id.0, command.stop)
        &&& response == (WorkerSpawn {
            account_id: command.account_id,
            access_token: command.access_token,
            run: command.run,
        })
    }

    fn dispatch(&mut self, command: StartPolling) -> (response: WorkerSpawn) {
        let StartPolling { account_id, access_token, stop, run } = command;
        let previous = self.pollers.insert(account_id.0, stop);
        match previous {
            Some(displaced) => {
                displaced.abort();
            }
            None => {}
        }
        WorkerSpawn { account_id, access_token, run }
    }
}

impl Actor<PollSpawner> {
    /// Register polling for one account: make a fresh cancellation pair,
    /// enqueue the registration, let the dispatch loop process it, and hand
    /// back the spawn order.  After the call the account's table entry holds
    /// the new worker's handle.
    pub fn start_polling(&mut self, account_id: AccountId, access_token: AccessToken) -> (order:
        WorkerSpawn)
        requires
            old(self).well_formed(),
            old(self).pending().len() == 0,
            old(self).capacity() > 0,
        ensures
            final(self).capacity() == old(self).capacity(),
            final(self).pending().len() == 0,
            order.account_id == account_id,
            order.access_token == access_token,
            forall|k: i32|
                old(self).state().table().contains_key(k)
                    ==> final(self).state().table().contains_key(k),
            exists|stop: futures_util::future::AbortHandle|
                final(self).state().table() == old(self).state().table().insert(
                    account_id.0,
                    stop,
                ),
    {
        let (stop, run) = futures_util::future::AbortHandle::new_pair();
        let ghost stop_spec = stop;
        let _ = self.send(StartPolling { account_id, access_token, stop, run });
        let response = self.step();
        match response {
            Some(order) => {
                proof {
                    assert(self.state().table() == old(self).state().table().insert(
                        account_id.0,
                        stop_spec,
                    ));
                }
                order
            }
            None => vstd::pervasive::unreached(),
        }
    }

    /// Register polling for each pair in order, as the boot flow does to
    /// re-arm polling for all previously registered accounts.  The spawn
    /// orders come back one per registration, in registration order, and
    /// afterwards every listed account has a worker entry in the table.
    pub fn start_many(&mut self, registrations: Vec<(AccountId, AccessToken)>) -> (orders: Vec<
        WorkerSpawn,
    >)
        requires
            old(self).well_formed(),
            old(self).pending().len() == 0,
            old(self).capacity() > 0,
        ensures
            final(self).capacity() == old(self).capacity(),
            final(self).pending().len() == 0,
            orders@.len() == registrations@.len(),
            forall|i: int|
                0 <= i < registrations@.len() ==> {
                    &&& (#[trigger] orders@[i]).account_id == registrations@[i].0
                    &&& orders@[i].access_token == registrations@[i].1
                },
            forall|i: int|
                0 <= i < registrations@.len() ==> final(self).state().table().contains_key(
                    (#[trigger] registrations@[i]).0.0,
                ),
            forall|k: i32|
                old(self).state().table().contains_key(k)
                    ==> final(self).state().table().contains_key(k),
    {
        let ghost all = registrations@;
        let mut remaining = registrations;
        let mut orders: Vec<WorkerSpawn> = Vec::new();
        while remaining.len() > 0
            invariant
                self.well_formed(),
                self.capacity() == old(self).capacity(),
                self.capacity() > 0,
                self.pending().len() == 0,
                orders@.len() + remaining@.len() == all.len(),
                remaining@ =~= all.skip(orders@.len() as int),
                forall|i: int|
                    0 <= i < orders@.len() ==> {
                        &&& (#[trigger] orders@[i]).account_id == all[i].0
                        &&& orders@[i].access_token == all[i].1
                    },
                forall|i: int|
                    0 <= i < orders@.len() ==> self.state().table().contains_key(
                        (#[trigger] all[i]).0.0,
                    ),
                forall|k: i32|
                    old(self).state().table().contains_key(k)
                        ==> self.state().table().contains_key(k),
            decreases remaining@.len(),
        {
            let (account_id, access_token) = remaining.remove(0);
            let order = self.start_polling(account_id, access_token);
            proof {
                assert(remaining@ =~= all.skip(orders@.len() as int + 1));
            }
            orders.push(order);
        }
        orders
    }
}

/// What the supervisor observes when one worker's future completes.
pub enum ChildOutcome {
    /// The worker's loop ended with its own result.
    Finished(Result<(), Error>),
    /// The worker had been replaced, and its cancelled future completed
    /// afterward: a stale completion.
    Superseded,
    /// The worker's task itself came apart (it panicked or was torn down)
    /// before the loop could report a result.
    Crashed,
}

/// The supervisor's reaction to one completed worker.  A stale completion of
/// a replaced worker is ignored; a worker that ended cleanly changes
/// nothing; a worker that failed — or a task that crashed — is a
/// supervisor-level failure, which ends the supervisor and is treated as
/// fatal by the embedding process.  Workers are never restarted here.
pub fn on_child_exit(outcome: ChildOutcome) -> (r: Result<(), Error>)
    ensures
        match outcome {
            ChildOutcome::Finished(inner) => r == inner,
            ChildOutcome::Superseded => r == Ok::<(), Error>(()),
            ChildOutcome::Crashed => r == Err::<(), Error>(Error::ChildFailed),
        },
{
    match outcome {
        ChildOutcome::Finished(inner) => inner,
        ChildOutcome::Superseded => Ok(()),
        ChildOutcome::Crashed => Err(Error::ChildFailed),
    }
}

/// Failures of the polling side: what one poll cycle can report, and what
/// the supervisor escalates.
#[derive(Debug, PartialEq, Eq)]
pub enum Error {
    /// A worker's task came apart without reporting a result.
    ChildFailed,
    /// The unread-notifications query failed.
    UnableToGetUnreadNotifications { source: UnreadNotificationsError },
    /// Forwarding through the notify flow failed.
    UnableToSendNotifications { source: crate::flow::Error },
    /// The worker's breaker tripped.
    TooManyTransientFailures { source: BreakerError },
}

impl IsTransient for Error {
    open spec fn transient(&self) -> bool {
        match self {
            Error::ChildFailed => false,
            Error::UnableToGetUnreadNotifications { source } => source.transient(),
            Error::UnableToSendNotifications { source } => source.transient(),
            Error::TooManyTransientFailures { .. } => false,
        }
    }

    fn is_transient(&self) -> (b: bool)
        ensures
            b == self.transient(),
    {
        match self {
            Error::ChildFailed => false,
            Error::UnableToGetUnreadNotifications { source } => source.is_transient(),
            Error::UnableToSendNotifications { source } => source.is_transient(),
            Error::TooManyTransientFailures { source: _ } => false,
        }
    }
}

} // verus!
