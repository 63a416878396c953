//! The flows: the decision layers between the web side, the store, the
//! notification source and the supervisor.
//!
//! The boot flow re-arms polling for every registration the store already
//! holds.  The proxy flow turns one account's fetched notifications and
//! inbox items into the incoming notifications that are deduplicated and
//! forwarded.  The flows' collaborators (store, HTTP clients) live outside
//! the core and hand them plain values.

use vstd::prelude::*;
use crate::actor::Actor;
use crate::error::IsTransient;
use crate::domain::IncomingNotification;
use crate::poll_spawner::{PollSpawner, WorkerSpawn};
use crate::stack_overflow::{AccessToken, AccountId, Inbox, Notification};

verus! {

/// Boots the background polling: hands every stored registration to the
/// poll spawner, in order, once at startup.
pub struct BootFlow {
    poll_spawner: Actor<PollSpawner>,
}

impl BootFlow {
    /// The supervisor's worker table.
    pub closed spec fn table(self) -> Map<i32, futures_util::future::AbortHandle> {
        self.poll_spawner.state().table()
    }

    /// The boot flow holds the supervisor between registrations: nothing
    /// queued, room in the mailbox.
    pub closed spec fn idle(self) -> bool {
        &&& self.poll_spawner.well_formed()
        &&& self.poll_spawner.pending().len() == 0
        &&& self.poll_spawner.capacity() > 0
    }

    /// A boot flow around a supervisor.
    pub fn new(poll_spawner: PollSpawner) -> (flow: Self)
        ensures
            flow.idle(),
            flow.table() == poll_spawner.table(),
    {
        BootFlow { poll_spawner: Actor::spawn(poll_spawner) }
    }

    /// Re-arm polling for all previously registered accounts: start polling
    /// for each registration in order.  The spawn orders come back one per
    /// registration, in registration order, and afterwards every listed
    /// account has a worker entry in the table.
    pub fn boot(&mut self, registrations: Vec<(AccountId, AccessToken)>) -> (orders: Vec<
        WorkerSpawn,
    >)
        requires
            old(self).idle(),
        ensures
            final(self).idle(),
            orders@.len() == registrations@.len(),
            forall|i: int|
                0 <= i < registrations@.len() ==> {
                    &&& (#[trigger] orders@[i]).account_id == registrations@[i].0
                    &&& orders@[i].access_token == registrations@[i].1
                },
            forall|i: int|
                0 <= i < registrations@.len() ==> final(self).table().contains_key(
                    (#[trigger] registrations@[i]).0.0,
                ),
            forall|k: i32| old(self).table().contains_key(k) ==> final(self).table().contains_key(k),
    {
        self.poll_spawner.start_many(registrations)
    }
}

/// The proxy flow for one authenticated account: turns what the source
/// reported into the incoming notifications the store deduplicates.  The
/// fetches themselves, the store call and the delivery are the embedding's
/// part; this state carries the account identity they are scoped to.
pub struct ProxyNotificationsAuthFlow {
    pub account_id: AccountId,
}

impl ProxyNotificationsAuthFlow {
    /// Merge one fetch round's notifications and inbox items, in that
    /// order, into incoming notifications tagged with this flow's account.
    pub fn collect_incoming(&self, notifications: Vec<Notification>, inbox: Vec<Inbox>) -> (r: Vec<
        IncomingNotification,
    >)
        ensures
            r@.len() == notifications@.len() + inbox@.len(),
            forall|i: int|
                0 <= i < notifications@.len() ==> {
                    &&& (#[trigger] r@[i]).account_id == self.account_id
                    &&& r@[i].text == notifications@[i].body
                },
            forall|i: int|
                notifications@.len() <= i < r@.len() ==> {
                    &&& (#[trigger] r@[i]).account_id == self.account_id
                    &&& r@[i].text == inbox@[i - notifications@.len()].body
                },
    {
        let ghost from_notifications = notifications@;
        let ghost from_inbox = inbox@;
        let mut r: Vec<IncomingNotification> = Vec::new();
        let mut notifications = notifications;
        while notifications.len() > 0
            invariant
                r@.len() + notifications@.len() == from_notifications.len(),
                notifications@ =~= from_notifications.skip(r@.len() as int),
                forall|i: int|
                    0 <= i < r@.len() ==> {
                        &&& (#[trigger] r@[i]).account_id == self.account_id
                        &&& r@[i].text == from_notifications[i].body
                    },
            decreases notifications@.len(),
        {
            let item = notifications.remove(0);
            proof {
                assert(notifications@ =~= from_notifications.skip(r@.len() as int + 1));
            }
            r.push(IncomingNotification { account_id: self.account_id, text: item.body });
        }
        let mut inbox = inbox;
        while inbox.len() > 0
            invariant
                r@.len() + inbox@.len() == from_notifications.len() + from_inbox.len(),
                r@.len() >= from_notifications.len(),
                inbox@ =~= from_inbox.skip(r@.len() as int - from_notifications.len() as int),
                forall|i: int|
                    0 <= i < from_notifications.len() ==> {
                        &&& (#[trigger] r@[i]).account_id == self.account_id
                        &&& r@[i].text == from_notifications[i].body
                    },
                forall|i: int|
                    from_notifications.len() <= i < r@.len() ==> {
                        &&& (#[trigger] r@[i]).account_id == self.account_id
                        &&& r@[i].text == from_inbox[i - from_notifications.len()].body
                    },
            decreases inbox@.len(),
        {
            let item = inbox.remove(0);
            proof {
                assert(inbox@ =~= from_inbox.skip(r@.len() as int - from_notifications.len() as int + 1));
            }
            r.push(IncomingNotification { account_id: self.account_id, text: item.body });
        }
        r
    }
}

/// Failures the flows report.  Only a failed fetch of notifications or
/// inbox items, or a failed delivery to the push-notification sink, can be
/// transient; everything else surfaces as fatal.
#[derive(Debug, PartialEq, Eq)]
pub enum Error {
    UnableToLoadRegistrations { source: crate::database::Error },
    UnableToGetOauthAccessToken { source: crate::stack_overflow::Error },
    UnableToGetCurrentUser { source: crate::stack_overflow::CurrentUserError },
    UnableToPersistRegistration { source: crate::database::Error },
    UnableToPersistPushoverUser { source: crate::database::Error },
    UnableToGetUnreadNotifications { source: crate::stack_overflow::UnreadNotificationsError },
    UnableToGetUnreadInbox { source: crate::stack_overflow::UnreadInboxError },
    UnableToPersistNotifications { source: crate::database::Error },
    UnableToDeliverNotifications { source: crate::pushover::Error },
}

impl IsTransient for Error {
    open spec fn transient(&self) -> bool {
        match self {
            Error::UnableToGetUnreadNotifications { source } => source.transient(),
            Error::UnableToGetUnreadInbox { source } => source.transient(),
            Error::UnableToDeliverNotifications { source } => source.transient(),
            _ => false,
        }
    }

    fn is_transient(&self) -> (b: bool)
        ensures
            b == self.transient(),
    {
        match self {
            Error::UnableToGetUnreadNotifications { source } => source.is_transient(),
            Error::UnableToGetUnreadInbox { source } => source.is_transient(),
            Error::UnableToDeliverNotifications { source } => source.is_transient(),
            _ => false,
        }
    }
}

} // verus!
