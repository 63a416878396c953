//! The supervision laws: what the supervisor and its workers do over time.
//!
//! The executable supervisor keeps only account-to-handle entries; which
//! worker is running is runtime state spread over the spawned tasks.  This
//! module states that whole picture as one transition system and proves its
//! laws: processing a registration cancels the account's previous worker
//! and installs the new one ([`register`]); a worker that ends on its own
//! stops running ([`worker_exit`]); and under every sequence of such events
//! at most one worker per account is ever in the Running state.
//!
//! Workers are numbered in spawn order; a worker's number stands for the
//! cancellation handle the executable supervisor holds for it.  That a
//! worker which is not running executes no further fetch is the executable
//! side's contract: [`crate::worker::Worker::on_attempt`] takes a Running
//! worker only, and [`crate::worker::Worker::on_cancel`] terminates one.

use vstd::prelude::*;

verus! {

/// One worker as the supervision laws track it: whose account it polls and
/// whether it is still in the Running state.
pub struct WorkerModel {
    pub account: int,
    pub running: bool,
}

/// The whole supervision picture: the supervisor's table from account to
/// its current worker, every worker ever spawned, and the number the next
/// worker will get.
pub struct SupervisionState {
    pub table: Map<int, int>,
    pub workers: Map<int, WorkerModel>,
    pub next: int,
}

/// What moves the picture: the dispatch loop processes a registration for
/// an account, or a worker's loop ends on its own (it failed or its breaker
/// tripped).
pub enum SupervisionEvent {
    Register { account: int },
    Exit { worker: int },
}

/// Before any event: no workers, an empty table.
pub open spec fn init() -> SupervisionState {
    SupervisionState { table: Map::empty(), workers: Map::empty(), next: 0 }
}

/// One dispatch turn of `start_polling` for an account: the account's
/// previous worker, if it exists, leaves the Running state (its handle is
/// aborted in this same turn), and a fresh Running worker takes over the
/// account's table entry.  Both updates happen in one turn, so no other
/// event interleaves them.
pub open spec fn register(s: SupervisionState, account: int) -> SupervisionState {
    let cancelled = if s.table.contains_key(account) && s.workers.contains_key(s.table[account]) {
        s.workers.insert(
            s.table[account],
            WorkerModel { account: s.workers[s.table[account]].account, running: false },
        )
    } else {
        s.workers
    };
    SupervisionState {
        table: s.table.insert(account, s.next),
        workers: cancelled.insert(s.next, WorkerModel { account, running: true }),
        next: s.next + 1,
    }
}

/// A worker's loop ended on its own: it is no longer running.  Its table
/// entry, if still pointing at it, goes stale rather than away.
pub open spec fn worker_exit(s: SupervisionState, worker: int) -> SupervisionState {
    if s.workers.contains_key(worker) {
        SupervisionState {
            table: s.table,
            workers: s.workers.insert(
                worker,
                WorkerModel { account: s.workers[worker].account, running: false },
            ),
            next: s.next,
        }
    } else {
        s
    }
}

/// One supervision event.
pub open spec fn step(s: SupervisionState, event: SupervisionEvent) -> SupervisionState {
    match event {
        SupervisionEvent::Register { account } => register(s, account),
        SupervisionEvent::Exit { worker } => worker_exit(s, worker),
    }
}

/// A whole sequence of supervision events, oldest first.
pub open spec fn run(s: SupervisionState, events: Seq<SupervisionEvent>) -> SupervisionState
    decreases events.len(),
{
    if events.len() == 0 {
        s
    } else {
        run(step(s, events[0]), events.drop_first())
    }
}

/// The inductive picture every reachable state satisfies: worker numbers
/// stay below the next one, and a running worker is exactly the worker its
/// account's table entry names.
pub open spec fn well_formed(s: SupervisionState) -> bool {
    &&& forall|w: int| #[trigger] s.workers.contains_key(w) ==> w < s.next
    &&& forall|w: int|
        #[trigger] s.workers.contains_key(w) && s.workers[w].running ==> {
            &&& s.table.contains_key(s.workers[w].account)
            &&& s.table[s.workers[w].account] == w
        }
}

/// At most one worker per account is in the Running state.
pub open spec fn at_most_one_running(s: SupervisionState) -> bool {
    forall|w1: int, w2: int|
        #![trigger s.workers.contains_key(w1), s.workers.contains_key(w2)]
        s.workers.contains_key(w1) && s.workers.contains_key(w2) && s.workers[w1].running
            && s.workers[w2].running && s.workers[w1].account == s.workers[w2].account ==> w1 == w2
}

/// The initial state is well-formed.
pub proof fn lemma_init_well_formed()
    ensures
        well_formed(init()),
{
}

/// Every supervision event preserves well-formedness.
pub proof fn lemma_step_preserves_well_formed(s: SupervisionState, event: SupervisionEvent)
    requires
        well_formed(s),
    ensures
        well_formed(step(s, event)),
{
    match event {
        SupervisionEvent::Register { account } => {
            let post = register(s, account);
            assert forall|w: int|
                #[trigger] post.workers.contains_key(w) && post.workers[w].running implies {
                &&& post.table.contains_key(post.workers[w].account)
                &&& post.table[post.workers[w].account] == w
            } by {
                if w != s.next {
                    assert(s.workers.contains_key(w));
                    assert(post.workers[w].account == s.workers[w].account);
                }
            }
        }
        SupervisionEvent::Exit { worker } => {}
    }
}

/// A well-formed state runs at most one worker per account: two running
/// workers for one account would both be the account's table entry.
pub proof fn lemma_well_formed_at_most_one(s: SupervisionState)
    requires
        well_formed(s),
    ensures
        at_most_one_running(s),
{
}

/// A whole event sequence preserves well-formedness.
pub proof fn lemma_run_preserves_well_formed(s: SupervisionState, events: Seq<SupervisionEvent>)
    requires
        well_formed(s),
    ensures
        well_formed(run(s, events)),
    decreases events.len(),
{
    if events.len() > 0 {
        lemma_step_preserves_well_formed(s, events[0]);
        lemma_run_preserves_well_formed(step(s, events[0]), events.drop_first());
    }
}

/// At-most-one-worker invariant: after the dispatch loop has processed any
/// sequence of registrations and worker exits, at most one worker per
/// account is in the Running state.
pub proof fn lemma_at_most_one_worker(events: Seq<SupervisionEvent>)
    ensures
        well_formed(run(init(), events)),
        at_most_one_running(run(init(), events)),
{
    lemma_init_well_formed();
    lemma_run_preserves_well_formed(init(), events);
    lemma_well_formed_at_most_one(run(init(), events));
}

/// Cancellation-on-replace: while an account's worker exists, processing a
/// new registration for that account leaves that worker out of the Running
/// state — before anything else can happen, in particular before the worker
/// could reach another fetch — while the fresh worker takes over the entry.
pub proof fn lemma_replace_cancels(s: SupervisionState, account: int)
    requires
        well_formed(s),
        s.table.contains_key(account),
        s.workers.contains_key(s.table[account]),
    ensures
        ({
            let replaced = s.table[account];
            let post = register(s, account);
            &&& post.workers.contains_key(replaced)
            &&& !post.workers[replaced].running
            &&& post.table[account] == s.next
            &&& post.workers[post.table[account]].running
        }),
{
    assert(s.table[account] < s.next);
}

} // verus!
