//! The worker's poll-loop state machine and the flows' pure steps.

use stack_overflow_relay::database;
use stack_overflow_relay::error::{BreakerError, IsTransient};
use stack_overflow_relay::flow;
use stack_overflow_relay::poll_spawner::Error;
use stack_overflow_relay::pushover;
use stack_overflow_relay::stack_overflow::{
    AccountId, CommonError, Date, Inbox, InboxType, Notification, NotificationType,
    UnreadNotificationsError,
};
use stack_overflow_relay::worker::{to_incoming, Termination, Worker, WorkerStatus, POLL_INTERVAL_SECONDS};

fn transient_error() -> Error {
    Error::UnableToGetUnreadNotifications {
        source: UnreadNotificationsError(CommonError::UnableToExecuteRequest { transient: true }),
    }
}

fn fatal_error() -> Error {
    Error::UnableToGetUnreadNotifications {
        source: UnreadNotificationsError(CommonError::UnableToDeserializeRequest),
    }
}

fn notification(body: &str) -> Notification {
    Notification {
        body: String::from(body),
        creation_date: Date(1_500_000_000),
        is_unread: true,
        notification_type: NotificationType::BadgeEarned,
        post_id: None,
    }
}

fn inbox_item(body: &str) -> Inbox {
    Inbox {
        body: String::from(body),
        creation_date: Date(1_500_000_001),
        is_unread: true,
        item_type: InboxType::NewAnswer,
        post_id: None,
    }
}

#[test]
fn poll_interval_is_a_minute() {
    assert_eq!(POLL_INTERVAL_SECONDS, 60);
}

#[test]
fn new_worker_is_running_with_a_fresh_breaker() {
    let w = Worker::new(AccountId(5));
    assert_eq!(w.account_id, AccountId(5));
    assert_eq!(w.status, WorkerStatus::Running);
    assert_eq!(w.current_failures(), 0);
}

#[test]
fn successful_attempts_keep_the_worker_running() {
    let mut w = Worker::new(AccountId(5));
    for _ in 0..3 {
        w.on_attempt(Ok(()));
        assert_eq!(w.status, WorkerStatus::Running);
        assert_eq!(w.current_failures(), 0);
    }
}

#[test]
fn nine_transient_cycles_survive_and_the_tenth_terminates() {
    let mut w = Worker::new(AccountId(5));
    for i in 1..=9 {
        w.on_attempt(Err(transient_error()));
        assert_eq!(w.status, WorkerStatus::Running, "cycle {} must be suppressed", i);
        assert_eq!(w.current_failures(), i);
    }
    w.on_attempt(Err(transient_error()));
    assert_eq!(
        w.status,
        WorkerStatus::Terminated(Termination::Failed(Error::TooManyTransientFailures {
            source: BreakerError {},
        }))
    );
}

#[test]
fn a_success_between_transients_keeps_the_worker_alive() {
    let mut w = Worker::new(AccountId(5));
    w.on_attempt(Err(transient_error()));
    w.on_attempt(Err(transient_error()));
    w.on_attempt(Ok(()));
    for _ in 0..9 {
        w.on_attempt(Err(transient_error()));
    }
    assert_eq!(w.current_failures(), 9);
    assert_eq!(w.status, WorkerStatus::Running);
}

#[test]
fn a_fatal_attempt_terminates_the_worker_at_once() {
    let mut w = Worker::new(AccountId(5));
    for _ in 0..5 {
        w.on_attempt(Err(transient_error()));
    }
    w.on_attempt(Err(fatal_error()));
    assert_eq!(w.status, WorkerStatus::Terminated(Termination::Failed(fatal_error())));
    assert_eq!(w.current_failures(), 5);
}

#[test]
fn cancellation_terminates_a_running_worker() {
    let mut w = Worker::new(AccountId(5));
    w.on_cancel();
    assert_eq!(w.status, WorkerStatus::Terminated(Termination::Cancelled));
}

#[test]
fn cancellation_after_failure_keeps_the_failure() {
    let mut w = Worker::new(AccountId(5));
    w.on_attempt(Err(fatal_error()));
    w.on_cancel();
    assert_eq!(w.status, WorkerStatus::Terminated(Termination::Failed(fatal_error())));
}

#[test]
fn to_incoming_tags_every_notification() {
    let fetched = vec![notification("one"), notification("two")];
    let incoming = to_incoming(AccountId(4), fetched);
    assert_eq!(incoming.len(), 2);
    assert_eq!(incoming[0].account_id, AccountId(4));
    assert_eq!(incoming[0].text, "one");
    assert_eq!(incoming[1].account_id, AccountId(4));
    assert_eq!(incoming[1].text, "two");
}

#[test]
fn to_incoming_of_nothing_is_nothing() {
    let incoming = to_incoming(AccountId(4), Vec::new());
    assert_eq!(incoming.len(), 0);
}

#[test]
fn collect_incoming_merges_notifications_then_inbox() {
    let proxy = flow::ProxyNotificationsAuthFlow { account_id: AccountId(8) };
    let merged = proxy.collect_incoming(
        vec![notification("n1"), notification("n2")],
        vec![inbox_item("i1")],
    );
    assert_eq!(merged.len(), 3);
    assert_eq!(merged[0].text, "n1");
    assert_eq!(merged[1].text, "n2");
    assert_eq!(merged[2].text, "i1");
    for item in &merged {
        assert_eq!(item.account_id, AccountId(8));
    }
}

#[test]
fn collect_incoming_of_nothing_is_empty() {
    let proxy = flow::ProxyNotificationsAuthFlow { account_id: AccountId(8) };
    let merged = proxy.collect_incoming(Vec::new(), Vec::new());
    assert!(merged.is_empty());
}

#[test]
fn flow_error_transience() {
    let fetch = flow::Error::UnableToGetUnreadNotifications {
        source: UnreadNotificationsError(CommonError::UnableToExecuteRequest { transient: true }),
    };
    assert!(fetch.is_transient());
    let deliver = flow::Error::UnableToDeliverNotifications {
        source: pushover::Error::UnableToSendNotification { transient: true },
    };
    assert!(deliver.is_transient());
    let deliver_fatal = flow::Error::UnableToDeliverNotifications {
        source: pushover::Error::UnknownApiToken,
    };
    assert!(!deliver_fatal.is_transient());
    let persist = flow::Error::UnableToPersistNotifications {
        source: database::Error::TransactionFailed,
    };
    assert!(!persist.is_transient());
    let load = flow::Error::UnableToLoadRegistrations {
        source: database::Error::UnableToQueryRegistrations,
    };
    assert!(!load.is_transient());
}
