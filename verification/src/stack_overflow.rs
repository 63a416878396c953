//! Data model of the notification source's API, and the pure part of its
//! client: response envelopes, their unwrapping, and the error taxonomy with
//! its transient/fatal tags.
//!
//! The HTTP transport itself lives outside the core; it hands these types in
//! as plain values (a decoded envelope, a numeric status) and the functions
//! here decide what each response means.

use vstd::prelude::*;
use crate::error::IsTransient;

verus! {

/// An OAuth access token, required to poll on behalf of an account;
/// immutable for the lifetime of a worker.
#[derive(Debug, Clone, PartialEq, Eq, Hash)]
pub struct AccessToken(pub String);

/// The opaque, comparable key identifying a registered account.
#[derive(Debug, Copy, Clone, PartialEq, Eq, Hash, Structural)]
pub struct AccountId(pub i32);

/// A site-level user identifier.
#[derive(Debug, Copy, Clone, PartialEq, Eq, Hash, Structural)]
pub struct UserId(pub i32);

/// A point in time, as the API reports it (seconds since the epoch).
#[derive(Debug, Copy, Clone, PartialEq, Eq, Hash, Structural)]
pub struct Date(pub i64);

/// A span of time, as the API reports it (seconds).
#[derive(Debug, Copy, Clone, PartialEq, Eq, Hash, Structural)]
pub struct Duration(pub i64);

/// A post identifier.
#[derive(Debug, Copy, Clone, PartialEq, Eq, Hash, Structural)]
pub struct PostId(pub i64);

/// The envelope every API response arrives in: either an error report or a
/// page of items.
#[derive(Debug, PartialEq, Eq)]
pub enum Wrapper<T> {
    Error(ApiError),
    Success(ApiSuccess<T>),
}

impl<T> Wrapper<T> {
    /// Turn the envelope into an ordinary result.
    pub fn into_result(self) -> (r: Result<ApiSuccess<T>, ApiError>)
        ensures
            match self {
                Wrapper::Error(e) => r == Err::<ApiSuccess<T>, ApiError>(e),
                Wrapper::Success(s) => r == Ok::<ApiSuccess<T>, ApiError>(s),
            },
    {
        match self {
            Wrapper::Error(e) => Err(e),
            Wrapper::Success(s) => Ok(s),
        }
    }
}

/// A successful API response: a page of items plus paging and quota data.
#[derive(Debug, PartialEq, Eq)]
pub struct ApiSuccess<T> {
    pub items: Vec<T>,
    pub backoff: Option<i32>,
    pub has_more: bool,
    pub quota: Quota,
}

impl<T> ApiSuccess<T> {
    /// The page's single item, if the page holds exactly one.
    pub fn into_singleton(self) -> (r: Option<T>)
        ensures
            r == if self.items@.len() == 1 {
                Some(self.items@[0])
            } else {
                None::<T>
            },
    {
        let mut items = self.items;
        let last = items.pop();
        match last {
            Some(v) => {
                if items.is_empty() {
                    Some(v)
                } else {
                    None
                }
            }
            None => None,
        }
    }
}

/// The request quota reported alongside every successful response.
#[derive(Debug, PartialEq, Eq)]
pub struct Quota {
    pub max: i32,
    pub remaining: i32,
}

/// The error report the API sends in place of a page.
#[derive(Debug, PartialEq, Eq)]
pub struct ApiError {
    pub id: i32,
    pub message: String,
    pub name: String,
}

/// One notification, as the source reports it.
#[derive(Debug, PartialEq, Eq)]
pub struct Notification {
    pub body: String,
    pub creation_date: Date,
    pub is_unread: bool,
    pub notification_type: NotificationType,
    pub post_id: Option<PostId>,
}

/// The source's taxonomy of notifications.
#[derive(Debug, PartialEq, Eq)]
pub enum NotificationType {
    Generic,
    ProfileActivity,
    BountyExpired,
    BountyExpiresInOneDay,
    BadgeEarned,
    BountyExpiresInThreeDays,
    ReputationBonus,
    AccountsAssociated,
    NewPrivilege,
    PostMigrated,
    ModeratorMessage,
    RegistrationReminder,
    EditSuggested,
    SubstantiveEdit,
    BountyGracePeriodStarted,
    Other(String),
}

/// One inbox item, as the source reports it.
#[derive(Debug, PartialEq, Eq)]
pub struct Inbox {
    pub body: String,
    pub creation_date: Date,
    pub is_unread: bool,
    pub item_type: InboxType,
    pub post_id: Option<PostId>,
}

/// The source's taxonomy of inbox items.
#[derive(Debug, PartialEq, Eq)]
pub enum InboxType {
    Comment,
    ChatMessage,
    NewAnswer,
    CareersMessage,
    CareersInvitations,
    MetaQuestion,
    PostNotice,
    ModeratorMessage,
    QuestionUpdate,
    FollowedPostActivity,
    SubcommunityEndorsement,
    SubcommunityLeaderboard,
    Other(String),
}

/// The authenticated user, as the API reports it.
#[derive(Debug, PartialEq, Eq)]
pub struct User {
    pub account_id: AccountId,
    pub user_id: UserId,
}

/// A response whose HTTP status was not a success: the status and a capture
/// of the response for diagnosis.
#[derive(Debug, PartialEq, Eq)]
pub struct NotSuccess {
    pub status: u16,
    pub res: String,
    pub headers: String,
    pub body: Vec<u8>,
}

/// Accept a response's HTTP status, or capture the response as a
/// [`NotSuccess`] error.  A status is a success exactly when it lies in
/// `200..300`.
pub fn ensure_success(status: u16, res: String, headers: String, body: Vec<u8>) -> (r: Result<
    (),
    NotSuccess,
>)
    ensures
        200 <= status < 300 ==> r == Ok::<(), NotSuccess>(()),
        !(200 <= status < 300) ==> (r == Err::<(), NotSuccess>(
            NotSuccess { status, res, headers, body },
        )),
{
    if 200 <= status && status < 300 {
        Ok(())
    } else {
        Err(NotSuccess { status, res, headers, body })
    }
}

/// The items of a decoded response envelope, or the failure the envelope
/// reported, as a [`CommonError`].
pub fn items_from_response<T>(w: Wrapper<T>) -> (r: Result<Vec<T>, CommonError>)
    ensures
        match w {
            Wrapper::Success(s) => r == Ok::<Vec<T>, CommonError>(s.items),
            Wrapper::Error(e) => r == Err::<Vec<T>, CommonError>(
                CommonError::RequestFailed { source: e },
            ),
        },
{
    match w.into_result() {
        Ok(s) => Ok(s.items),
        Err(e) => Err(CommonError::RequestFailed { source: e }),
    }
}

/// What an unread-notifications response means: its items, or the failure
/// tagged as an [`UnreadNotificationsError`].
pub fn notifications_from_response(w: Wrapper<Notification>) -> (r: Result<
    Vec<Notification>,
    UnreadNotificationsError,
>)
    ensures
        match w {
            Wrapper::Success(s) => r == Ok::<Vec<Notification>, UnreadNotificationsError>(s.items),
            Wrapper::Error(e) => r == Err::<Vec<Notification>, UnreadNotificationsError>(
                UnreadNotificationsError(CommonError::RequestFailed { source: e }),
            ),
        },
{
    match items_from_response(w) {
        Ok(items) => Ok(items),
        Err(e) => Err(UnreadNotificationsError(e)),
    }
}

/// What an unread-inbox response means: its items, or the failure tagged as
/// an [`UnreadInboxError`].
pub fn inbox_from_response(w: Wrapper<Inbox>) -> (r: Result<Vec<Inbox>, UnreadInboxError>)
    ensures
        match w {
            Wrapper::Success(s) => r == Ok::<Vec<Inbox>, UnreadInboxError>(s.items),
            Wrapper::Error(e) => r == Err::<Vec<Inbox>, UnreadInboxError>(
                UnreadInboxError(CommonError::RequestFailed { source: e }),
            ),
        },
{
    match items_from_response(w) {
        Ok(items) => Ok(items),
        Err(e) => Err(UnreadInboxError(e)),
    }
}

/// What a current-user response means: the one authenticated user it must
/// carry.  A failed envelope is a [`CommonError`]; a page holding anything
/// but exactly one user is [`CurrentUserError::RequestDidNotHaveOneResult`].
pub fn user_from_response(w: Wrapper<User>) -> (r: Result<User, CurrentUserError>)
    ensures
        match w {
            Wrapper::Success(s) => if s.items@.len() == 1 {
                r == Ok::<User, CurrentUserError>(s.items@[0])
            } else {
                r == Err::<User, CurrentUserError>(CurrentUserError::RequestDidNotHaveOneResult)
            },
            Wrapper::Error(e) => r == Err::<User, CurrentUserError>(
                CurrentUserError::Common { source: CommonError::RequestFailed { source: e } },
            ),
        },
{
    match w.into_result() {
        Ok(s) => match s.into_singleton() {
            Some(user) => Ok(user),
            None => Err(CurrentUserError::RequestDidNotHaveOneResult),
        },
        Err(e) => Err(CurrentUserError::Common {
            source: CommonError::RequestFailed { source: e },
        }),
    }
}

/// Failures of configuring the client or of the OAuth access-token exchange.
#[derive(Debug, PartialEq, Eq)]
pub enum Error {
    UnknownClientId,
    UnknownClientSecret,
    UnknownClientKey,
    UnableToConfigureUnreadNotificationsUrl,
    UnableToConfigureUnreadInboxUrl,
    UnableToConfigureCurrentUserUrl,
    UnableToBuildOauthEntryUrl,
    UnableToExecuteAccessTokenRequest,
    AccessTokenRequestRejected { source: NotSuccess },
    UnableToDeserializeAccessTokenRequest,
}

/// Failures of getting the current user.
#[derive(Debug, PartialEq, Eq)]
pub enum CurrentUserError {
    Common { source: CommonError },
    RequestDidNotHaveOneResult,
}

/// A failure of the unread-notifications query.
#[derive(Debug, PartialEq, Eq)]
pub struct UnreadNotificationsError(pub CommonError);

impl IsTransient for UnreadNotificationsError {
    open spec fn transient(&self) -> bool {
        self.0.transient()
    }

    fn is_transient(&self) -> (b: bool)
        ensures
            b == self.transient(),
    {
        self.0.is_transient()
    }
}

/// A failure of the unread-inbox query.
#[derive(Debug, PartialEq, Eq)]
pub struct UnreadInboxError(pub CommonError);

impl IsTransient for UnreadInboxError {
    open spec fn transient(&self) -> bool {
        self.0.transient()
    }

    fn is_transient(&self) -> (b: bool)
        ensures
            b == self.transient(),
    {
        self.0.is_transient()
    }
}

/// The failures every authenticated query shares.  The transport failure
/// carries the transient tag its underlying error was classified with (a
/// request cut short by an incomplete network response is transient;
/// everything else is not).
#[derive(Debug, PartialEq, Eq)]
pub enum CommonError {
    UnableToExecuteRequest { transient: bool },
    RequestRejected { source: NotSuccess },
    UnableToDeserializeRequest,
    RequestFailed { source: ApiError },
}

impl IsTransient for CommonError {
    open spec fn transient(&self) -> bool {
        match self {
            CommonError::UnableToExecuteRequest { transient } => *transient,
            _ => false,
        }
    }

    fn is_transient(&self) -> (b: bool)
        ensures
            b == self.transient(),
    {
        match self {
            CommonError::UnableToExecuteRequest { transient } => *transient,
            _ => false,
        }
    }
}

} // verus!
