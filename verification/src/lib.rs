//! Concurrency core of a notification relay.
//!
//! The relay polls a notification API on behalf of many registered accounts
//! and forwards new items to a push-notification service.  This crate holds
//! the verified core of that process: a generic actor harness (bounded
//! mailbox, reply slot, dispatch loop), a supervisor that keeps at most one
//! polling worker per account and cancels a worker when its account
//! re-registers, a per-worker circuit breaker that absorbs short runs of
//! transient failures, and the data model and error taxonomy that those
//! components exchange.
//!
//! Network and database collaborators are outside the core; callers hand the
//! core plain values (fetched notifications, attempt outcomes, registration
//! lists) and carry out the actions it decides on (spawning, cancelling and
//! sleeping workers).

pub mod actor;
pub mod database;
pub mod domain;
pub mod error;
pub mod flow;
pub mod mailbox;
pub mod poll_spawner;
pub mod pushover;
pub mod stack_overflow;
pub mod supervision;
pub mod worker;
