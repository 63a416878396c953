//! The supervisor: worker replacement, cancellation, boot, and its
//! reaction to worker completions.

use stack_overflow_relay::actor::{Actor, ActorState};
use stack_overflow_relay::error::{BreakerError, IsTransient};
use stack_overflow_relay::flow;
use stack_overflow_relay::pushover;
use stack_overflow_relay::poll_spawner::{on_child_exit, ChildOutcome, Error, PollSpawner, StartPolling};
use stack_overflow_relay::stack_overflow::{
    AccessToken, AccountId, CommonError, UnreadNotificationsError,
};
use futures_util::future::AbortHandle;

fn pair() -> (AbortHandle, futures_util::future::AbortRegistration) {
    AbortHandle::new_pair()
}

fn command(account: i32, token: &str, stop: AbortHandle) -> StartPolling {
    let (_, run) = pair();
    StartPolling {
        account_id: AccountId(account),
        access_token: AccessToken(String::from(token)),
        stop,
        run,
    }
}

#[test]
fn first_registration_aborts_nothing() {
    let mut spawner = PollSpawner::new();
    let (stop, _run) = pair();
    let probe = stop.clone();
    let order = spawner.dispatch(command(7, "t1", stop));
    assert_eq!(order.account_id, AccountId(7));
    assert_eq!(order.access_token, AccessToken(String::from("t1")));
    assert!(!probe.is_aborted());
}

#[test]
fn replacing_a_worker_aborts_the_displaced_handle() {
    let mut spawner = PollSpawner::new();
    let (stop1, _run1) = pair();
    let (stop2, _run2) = pair();
    let probe1 = stop1.clone();
    let probe2 = stop2.clone();
    spawner.dispatch(command(7, "t1", stop1));
    assert!(!probe1.is_aborted());
    // The same account registers again: the previous worker's handle is
    // aborted in the same dispatch turn.
    spawner.dispatch(command(7, "t2", stop2));
    assert!(probe1.is_aborted(), "the replaced worker must be cancelled");
    assert!(!probe2.is_aborted(), "the replacement must keep running");
}

#[test]
fn workers_of_distinct_accounts_are_left_alone() {
    let mut spawner = PollSpawner::new();
    let (stop1, _run1) = pair();
    let (stop2, _run2) = pair();
    let probe1 = stop1.clone();
    let probe2 = stop2.clone();
    spawner.dispatch(command(1, "t1", stop1));
    spawner.dispatch(command(2, "t2", stop2));
    assert!(!probe1.is_aborted());
    assert!(!probe2.is_aborted());
}

#[test]
fn repeated_replacement_leaves_one_live_handle() {
    let mut spawner = PollSpawner::new();
    let mut probes = Vec::new();
    for i in 0..4 {
        let (stop, _run) = pair();
        probes.push(stop.clone());
        spawner.dispatch(command(7, &format!("t{}", i), stop));
    }
    for probe in &probes[..3] {
        assert!(probe.is_aborted());
    }
    assert!(!probes[3].is_aborted());
}

#[test]
fn start_polling_hands_back_the_spawn_order() {
    let mut actor = Actor::spawn(PollSpawner::new());
    let order = actor.start_polling(AccountId(3), AccessToken(String::from("abc")));
    assert_eq!(order.account_id, AccountId(3));
    assert_eq!(order.access_token, AccessToken(String::from("abc")));
}

#[test]
fn start_many_preserves_registration_order() {
    let mut actor = Actor::spawn(PollSpawner::new());
    let registrations = vec![
        (AccountId(5), AccessToken(String::from("t5"))),
        (AccountId(6), AccessToken(String::from("t6"))),
        (AccountId(7), AccessToken(String::from("t7"))),
    ];
    let orders = actor.start_many(registrations);
    assert_eq!(orders.len(), 3);
    assert_eq!(orders[0].account_id, AccountId(5));
    assert_eq!(orders[1].account_id, AccountId(6));
    assert_eq!(orders[2].account_id, AccountId(7));
    assert_eq!(orders[0].access_token, AccessToken(String::from("t5")));
    assert_eq!(orders[1].access_token, AccessToken(String::from("t6")));
    assert_eq!(orders[2].access_token, AccessToken(String::from("t7")));
}

#[test]
fn boot_re_arms_every_registration() {
    let mut boot = flow::BootFlow::new(PollSpawner::new());
    let registrations = vec![
        (AccountId(1), AccessToken(String::from("a"))),
        (AccountId(2), AccessToken(String::from("b"))),
    ];
    let orders = boot.boot(registrations);
    assert_eq!(orders.len(), 2);
    assert_eq!(orders[0].account_id, AccountId(1));
    assert_eq!(orders[1].account_id, AccountId(2));
}

#[test]
fn boot_with_no_registrations_spawns_nothing() {
    let mut boot = flow::BootFlow::new(PollSpawner::new());
    let orders = boot.boot(Vec::new());
    assert_eq!(orders.len(), 0);
}

#[test]
fn boot_with_a_duplicate_account_orders_both_workers() {
    let mut boot = flow::BootFlow::new(PollSpawner::new());
    let registrations = vec![
        (AccountId(9), AccessToken(String::from("old"))),
        (AccountId(9), AccessToken(String::from("new"))),
    ];
    let orders = boot.boot(registrations);
    assert_eq!(orders.len(), 2);
    assert_eq!(orders[0].access_token, AccessToken(String::from("old")));
    assert_eq!(orders[1].access_token, AccessToken(String::from("new")));
}

#[test]
fn boot_of_many_registrations_keeps_their_order() {
    // Far more registrations than the mailbox holds at once: the boot flow
    // interleaves sending with dispatching, as a suspended sender would.
    let mut boot = flow::BootFlow::new(PollSpawner::new());
    let registrations: Vec<_> = (0..25)
        .map(|i| (AccountId(i), AccessToken(format!("t{}", i))))
        .collect();
    let orders = boot.boot(registrations);
    assert_eq!(orders.len(), 25);
    for (i, order) in orders.iter().enumerate() {
        assert_eq!(order.account_id, AccountId(i as i32));
        assert_eq!(order.access_token, AccessToken(format!("t{}", i)));
    }
}

#[test]
fn stale_completion_of_a_replaced_worker_is_ignored() {
    assert_eq!(on_child_exit(ChildOutcome::Superseded), Ok(()));
}

#[test]
fn clean_completion_changes_nothing() {
    assert_eq!(on_child_exit(ChildOutcome::Finished(Ok(()))), Ok(()));
}

#[test]
fn failed_worker_ends_the_supervisor() {
    let failure = Error::TooManyTransientFailures { source: BreakerError {} };
    let escalated = on_child_exit(ChildOutcome::Finished(Err(failure)));
    assert_eq!(escalated, Err(Error::TooManyTransientFailures { source: BreakerError {} }));
}

#[test]
fn crashed_worker_task_ends_the_supervisor() {
    assert_eq!(on_child_exit(ChildOutcome::Crashed), Err(Error::ChildFailed));
}

#[test]
fn poll_error_transience() {
    assert!(!Error::ChildFailed.is_transient());
    assert!(!Error::TooManyTransientFailures { source: BreakerError {} }.is_transient());
    let transient_fetch = Error::UnableToGetUnreadNotifications {
        source: UnreadNotificationsError(CommonError::UnableToExecuteRequest { transient: true }),
    };
    assert!(transient_fetch.is_transient());
    let fatal_fetch = Error::UnableToGetUnreadNotifications {
        source: UnreadNotificationsError(CommonError::UnableToDeserializeRequest),
    };
    assert!(!fatal_fetch.is_transient());
    let transient_forward = Error::UnableToSendNotifications {
        source: flow::Error::UnableToDeliverNotifications {
            source: pushover::Error::UnableToSendNotification { transient: true },
        },
    };
    assert!(transient_forward.is_transient());
}
