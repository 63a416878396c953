//! The two notification shapes the relay moves between its collaborators.

use vstd::prelude::*;
use crate::pushover::UserKey;
use crate::stack_overflow::AccountId;

verus! {

/// A notification as fetched from the source, tagged with the account it
/// belongs to.
#[derive(Debug, PartialEq, Eq)]
pub struct IncomingNotification {
    pub account_id: AccountId,
    pub text: String,
}

/// A notification ready to forward to the push-notification sink, addressed
/// by the recipient's user key.
#[derive(Debug, PartialEq, Eq)]
pub struct OutgoingNotification {
    pub user: UserKey,
    pub text: String,
}

} // verus!
