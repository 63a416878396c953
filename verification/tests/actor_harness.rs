//! The mailbox, the reply slot, and the generic harness driven through the
//! poll spawner.

use stack_overflow_relay::actor::{Actor, MAILBOX_CAPACITY};
use stack_overflow_relay::mailbox::{ActorError, Mailbox, ReplySlot};
use stack_overflow_relay::poll_spawner::{PollSpawner, StartPolling};
use stack_overflow_relay::stack_overflow::{AccessToken, AccountId};
use futures_util::future::AbortHandle;

fn registration(account: i32, token: &str) -> StartPolling {
    let (stop, run) = AbortHandle::new_pair();
    StartPolling {
        account_id: AccountId(account),
        access_token: AccessToken(String::from(token)),
        stop,
        run,
    }
}

#[test]
fn mailbox_is_fifo() {
    let mut m: Mailbox<i32> = Mailbox::new(5);
    assert_eq!(m.try_send(1), Ok(()));
    assert_eq!(m.try_send(2), Ok(()));
    assert_eq!(m.try_send(3), Ok(()));
    assert_eq!(m.try_recv(), Some(1));
    assert_eq!(m.try_recv(), Some(2));
    assert_eq!(m.try_recv(), Some(3));
    assert_eq!(m.try_recv(), None);
}

#[test]
fn full_mailbox_refuses_until_drained() {
    let mut m: Mailbox<i32> = Mailbox::new(2);
    assert_eq!(m.try_send(10), Ok(()));
    assert_eq!(m.try_send(11), Ok(()));
    // The mailbox is full: the message is handed back, which is what
    // suspends a real sender.
    assert_eq!(m.try_send(12), Err(12));
    assert_eq!(m.len(), 2);
    // The dispatch loop drains one slot; the sender gets through.
    assert_eq!(m.try_recv(), Some(10));
    assert_eq!(m.try_send(12), Ok(()));
    assert_eq!(m.try_recv(), Some(11));
    assert_eq!(m.try_recv(), Some(12));
}

#[test]
fn zero_capacity_mailbox_accepts_nothing() {
    let mut m: Mailbox<i32> = Mailbox::new(0);
    assert_eq!(m.try_send(1), Err(1));
    assert_eq!(m.len(), 0);
}

#[test]
fn reply_slot_delivers_one_value() {
    let mut slot: ReplySlot<u32> = ReplySlot::new();
    slot.deliver(42);
    assert_eq!(slot.take(), Ok(42));
}

#[test]
fn abandoned_reply_slot_signals_actor_gone() {
    let mut slot: ReplySlot<u32> = ReplySlot::new();
    slot.abandon();
    assert_eq!(slot.take(), Err(ActorError {}));
}

#[test]
fn delivery_into_abandoned_slot_is_ignored() {
    let mut slot: ReplySlot<u32> = ReplySlot::new();
    slot.abandon();
    slot.deliver(42);
    assert_eq!(slot.take(), Err(ActorError {}));
}

#[test]
fn actor_processes_commands_in_arrival_order() {
    let mut actor = Actor::spawn(PollSpawner::new());
    assert!(actor.try_send(registration(1, "t1")).is_ok());
    assert!(actor.try_send(registration(2, "t2")).is_ok());
    let first = actor.step().expect("a pending command");
    let second = actor.step().expect("a pending command");
    assert_eq!(first.account_id, AccountId(1));
    assert_eq!(first.access_token, AccessToken(String::from("t1")));
    assert_eq!(second.account_id, AccountId(2));
    assert_eq!(second.access_token, AccessToken(String::from("t2")));
    assert!(actor.step().is_none());
}

#[test]
fn run_drains_the_whole_mailbox_in_order() {
    let mut actor = Actor::spawn(PollSpawner::new());
    for i in 0..4 {
        assert!(actor.try_send(registration(i, "t")).is_ok());
    }
    let orders = actor.run();
    assert_eq!(orders.len(), 4);
    for (i, order) in orders.iter().enumerate() {
        assert_eq!(order.account_id, AccountId(i as i32));
    }
}

#[test]
fn send_into_full_mailbox_drains_the_oldest_command() {
    let mut actor = Actor::spawn(PollSpawner::new());
    for i in 0..MAILBOX_CAPACITY {
        let drained = actor.send(registration(i as i32, "t"));
        assert!(drained.is_none(), "send {} had room and must not drain", i);
    }
    // The mailbox is full: this send first lets the dispatch loop process
    // the oldest command, then enqueues.
    let drained = actor.send(registration(99, "t99"));
    let order = drained.expect("the full mailbox must be drained by one slot");
    assert_eq!(order.account_id, AccountId(0));
    let rest = actor.run();
    assert_eq!(rest.len(), MAILBOX_CAPACITY);
    assert_eq!(rest[rest.len() - 1].account_id, AccountId(99));
}
