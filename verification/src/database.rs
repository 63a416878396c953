//! Rows of the relational store, and its failures.
//!
//! The store itself (connection, queries, upserts, deduplication) is an
//! excluded collaborator; the core only exchanges these plain row shapes
//! with it and folds its failures into the flow errors.

use vstd::prelude::*;
use crate::domain::{IncomingNotification, OutgoingNotification};
use crate::pushover::UserKey;
use crate::stack_overflow::{AccessToken, AccountId};

verus! {

/// A registered account and its access token.
#[derive(Debug, PartialEq, Eq)]
pub struct Registration {
    pub account_id: i32,
    pub access_token: String,
}

/// The push-notification user key an account forwards to.
#[derive(Debug, PartialEq, Eq)]
pub struct PushoverUser {
    pub key: String,
    pub account_id: i32,
}

/// A notification about to be recorded for deduplication.
#[derive(Debug, PartialEq, Eq)]
pub struct NewNotification {
    pub account_id: i32,
    pub text: String,
}

/// A recorded notification.
#[derive(Debug, PartialEq, Eq)]
pub struct Notification {
    pub id: i32,
    pub account_id: i32,
    pub text: String,
}

/// The registrations the store reported, as the poll spawner takes them:
/// each queried `(account, token)` row becomes a registration pair, in row
/// order.
pub fn to_registrations(rows: Vec<(i32, String)>) -> (r: Vec<(AccountId, AccessToken)>)
    ensures
        r@.len() == rows@.len(),
        forall|i: int|
            0 <= i < rows@.len() ==> {
                &&& (#[trigger] r@[i]).0 == AccountId(rows@[i].0)
                &&& r@[i].1 == AccessToken(rows@[i].1)
            },
{
    let ghost queried = rows@;
    let mut r: Vec<(AccountId, AccessToken)> = Vec::new();
    let mut rows = rows;
    while rows.len() > 0
        invariant
            r@.len() + rows@.len() == queried.len(),
            rows@ =~= queried.skip(r@.len() as int),
            forall|i: int|
                0 <= i < r@.len() ==> {
                    &&& (#[trigger] r@[i]).0 == AccountId(queried[i].0)
                    &&& r@[i].1 == AccessToken(queried[i].1)
                },
        decreases rows@.len(),
    {
        let (account_id, access_token) = rows.remove(0);
        proof {
            assert(rows@ =~= queried.skip(r@.len() as int + 1));
        }
        r.push((AccountId(account_id), AccessToken(access_token)));
    }
    r
}

/// Incoming notifications as the store records them for deduplication: one
/// row per notification, in order.
pub fn to_new_notifications(notifications: Vec<IncomingNotification>) -> (r: Vec<NewNotification>)
    ensures
        r@.len() == notifications@.len(),
        forall|i: int|
            0 <= i < notifications@.len() ==> {
                &&& (#[trigger] r@[i]).account_id == notifications@[i].account_id.0
                &&& r@[i].text == notifications@[i].text
            },
{
    let ghost incoming = notifications@;
    let mut r: Vec<NewNotification> = Vec::new();
    let mut notifications = notifications;
    while notifications.len() > 0
        invariant
            r@.len() + notifications@.len() == incoming.len(),
            notifications@ =~= incoming.skip(r@.len() as int),
            forall|i: int|
                0 <= i < r@.len() ==> {
                    &&& (#[trigger] r@[i]).account_id == incoming[i].account_id.0
                    &&& r@[i].text == incoming[i].text
                },
        decreases notifications@.len(),
    {
        let item = notifications.remove(0);
        proof {
            assert(notifications@ =~= incoming.skip(r@.len() as int + 1));
        }
        r.push(NewNotification { account_id: item.account_id.0, text: item.text });
    }
    r
}

/// The notifications that turned out new after deduplication, as the sink
/// takes them: each queried `(user key, text)` row becomes an outgoing
/// notification, in row order.
pub fn to_outgoing(rows: Vec<(String, String)>) -> (r: Vec<OutgoingNotification>)
    ensures
        r@.len() == rows@.len(),
        forall|i: int|
            0 <= i < rows@.len() ==> {
                &&& (#[trigger] r@[i]).user == UserKey(rows@[i].0)
                &&& r@[i].text == rows@[i].1
            },
{
    let ghost queried = rows@;
    let mut r: Vec<OutgoingNotification> = Vec::new();
    let mut rows = rows;
    while rows.len() > 0
        invariant
            r@.len() + rows@.len() == queried.len(),
            rows@ =~= queried.skip(r@.len() as int),
            forall|i: int|
                0 <= i < r@.len() ==> {
                    &&& (#[trigger] r@[i]).user == UserKey(queried[i].0)
                    &&& r@[i].text == queried[i].1
                },
        decreases rows@.len(),
    {
        let (key, text) = rows.remove(0);
        proof {
            assert(rows@ =~= queried.skip(r@.len() as int + 1));
        }
        r.push(OutgoingNotification { user: UserKey(key), text });
    }
    r
}

/// Failures the store reports.  None of them is transient: a failing store
/// is a process-level problem, not expected noise.
#[derive(Debug, PartialEq, Eq)]
pub enum Error {
    UnableToQueryRegistrations,
    UnableToInsertRegistration,
    UnableToInsertPushoverUser,
    UnableToInsertNotifications,
    UnableToQueryNotifications,
    TransactionFailed,
}

} // verus!
