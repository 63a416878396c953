//! The generic actor harness.
//!
//! An actor is a state object owned exclusively by one dispatch loop and
//! reached only through a bounded mailbox of commands.  The harness is
//! generic over the state type: a state declares its command and response
//! types and a dispatch transition, and the harness supplies the mailbox,
//! the backpressure discipline of senders, and the dispatch loop that
//! processes commands strictly in arrival order.

use vstd::prelude::*;
use vstd::pervasive::unreached;
use crate::mailbox::Mailbox;

verus! {

/// How many pending commands an actor's mailbox holds.
pub const MAILBOX_CAPACITY: usize = 10;

/// A state object an actor can be built around.
///
/// `next` is the transition relation of one dispatch turn: it relates the
/// state before a command, the command, the state after it and the response
/// handed back.  `dispatch` is the executable turn, and is the only way the
/// state is ever touched once the actor runs.
pub trait ActorState: Sized {
    /// The tagged command union the actor consumes.
    type Command;

    /// What one dispatch turn hands back for delivery into the reply slot.
    type Response;

    /// The transition relation of one dispatch turn.
    spec fn next(pre: Self, command: Self::Command, post: Self, response: Self::Response) -> bool;

    /// Process one command against the exclusively-owned state.
    fn dispatch(&mut self, command: Self::Command) -> (response: Self::Response)
        ensures
            Self::next(*old(self), command, *final(self), response),
    ;
}

/// The dispatch loop's effect on a whole command sequence: processing
/// `commands` in order takes the state from `pre` to `post` and yields
/// `responses`, one per command, in the same order.
pub open spec fn runs_to<S: ActorState>(
    pre: S,
    commands: Seq<S::Command>,
    post: S,
    responses: Seq<S::Response>,
) -> bool
    decreases commands.len(),
{
    if commands.len() == 0 {
        &&& post == pre
        &&& responses.len() == 0
    } else {
        &&& responses.len() == commands.len()
        &&& exists|mid: S|
            {
                &&& #[trigger] S::next(pre, commands[0], mid, responses[0])
                &&& runs_to(mid, commands.drop_first(), post, responses.drop_first())
            }
    }
}

/// A run followed by one more dispatch turn is a run of the longer sequence.
pub proof fn lemma_runs_to_step<S: ActorState>(
    pre: S,
    commands: Seq<S::Command>,
    mid: S,
    responses: Seq<S::Response>,
    command: S::Command,
    post: S,
    response: S::Response,
)
    requires
        runs_to(pre, commands, mid, responses),
        S::next(mid, command, post, response),
    ensures
        runs_to(pre, commands.push(command), post, responses.push(response)),
    decreases commands.len(),
{
    if commands.len() == 0 {
        assert(commands.push(command).drop_first() =~= Seq::<S::Command>::empty());
        assert(responses.push(response).drop_first() =~= Seq::<S::Response>::empty());
        assert(runs_to(
            post,
            commands.push(command).drop_first(),
            post,
            responses.push(response).drop_first(),
        ));
        assert(S::next(pre, commands.push(command)[0], post, responses.push(response)[0]));
    } else {
        let step_mid = choose|m: S|
            {
                &&& #[trigger] S::next(pre, commands[0], m, responses[0])
                &&& runs_to(m, commands.drop_first(), mid, responses.drop_first())
            };
        lemma_runs_to_step(
            step_mid,
            commands.drop_first(),
            mid,
            responses.drop_first(),
            command,
            post,
            response,
        );
        assert(commands.push(command).drop_first() =~= commands.drop_first().push(command));
        assert(responses.push(response).drop_first() =~= responses.drop_first().push(response));
        assert(S::next(pre, commands.push(command)[0], step_mid, responses.push(response)[0]));
    }
}

/// A state object together with the mailbox feeding its dispatch loop.
pub struct Actor<S: ActorState> {
    inner: S,
    mailbox: Mailbox<S::Command>,
}

impl<S: ActorState> Actor<S> {
    /// The actor's private state.
    pub closed spec fn state(self) -> S {
        self.inner
    }

    /// The pending commands, oldest first.
    pub closed spec fn pending(self) -> Seq<S::Command> {
        self.mailbox@
    }

    /// The mailbox bound.
    pub closed spec fn capacity(self) -> nat {
        self.mailbox.capacity()
    }

    /// An actor whose mailbox holds no more commands than its bound.  Every
    /// actor [`Actor::spawn`] hands out is well-formed and every operation
    /// keeps it so; both facts follow from the operations' contracts.
    pub open spec fn well_formed(self) -> bool {
        self.pending().len() <= self.capacity()
    }

    /// Set an actor up around a state object, with an empty mailbox of the
    /// fixed bounded capacity.
    pub fn spawn(state: S) -> (a: Self)
        ensures
            a.state() == state,
            a.pending() == Seq::<S::Command>::empty(),
            a.capacity() == MAILBOX_CAPACITY as nat,
    {
        Actor { inner: state, mailbox: Mailbox::new(MAILBOX_CAPACITY) }
    }

    /// Enqueue a command, or hand it back when the mailbox is full.
    pub fn try_send(&mut self, command: S::Command) -> (r: Result<(), S::Command>)
        ensures
            final(self).state() == old(self).state(),
            final(self).capacity() == old(self).capacity(),
            old(self).pending().len() < old(self).capacity() ==> {
                &&& r is Ok
                &&& final(self).pending() == old(self).pending().push(command)
            },
            old(self).pending().len() >= old(self).capacity() ==> {
                &&& r == Err::<(), S::Command>(command)
                &&& final(self).pending() == old(self).pending()
            },
    {
        self.mailbox.try_send(command)
    }

    /// One turn of the dispatch loop: process the oldest pending command, if
    /// any, and hand back its response.
    pub fn step(&mut self) -> (r: Option<S::Response>)
        ensures
            final(self).capacity() == old(self).capacity(),
            old(self).pending().len() == 0 ==> {
                &&& r is None
                &&& final(self).state() == old(self).state()
                &&& final(self).pending() == old(self).pending()
            },
            old(self).pending().len() > 0 ==> {
                &&& final(self).pending() == old(self).pending().drop_first()
                &&& (r matches Some(response) && S::next(
                    old(self).state(),
                    old(self).pending()[0],
                    final(self).state(),
                    response,
                ))
            },
    {
        match self.mailbox.try_recv() {
            None => None,
            Some(command) => Some(self.inner.dispatch(command)),
        }
    }

    /// Enqueue a command the way a real sender does: a sender facing a full
    /// mailbox is suspended until the dispatch loop drains a slot, so here a
    /// full mailbox first has its oldest command dispatched (that response is
    /// handed back) and only then is the new command enqueued.
    pub fn send(&mut self, command: S::Command) -> (drained: Option<S::Response>)
        requires
            old(self).well_formed(),
            old(self).capacity() > 0,
        ensures
            final(self).capacity() == old(self).capacity(),
            old(self).pending().len() < old(self).capacity() ==> {
                &&& drained is None
                &&& final(self).state() == old(self).state()
                &&& final(self).pending() == old(self).pending().push(command)
            },
            old(self).pending().len() >= old(self).capacity() ==> {
                &&& final(self).pending() == old(self).pending().drop_first().push(command)
                &&& (drained matches Some(response) && S::next(
                    old(self).state(),
                    old(self).pending()[0],
                    final(self).state(),
                    response,
                ))
            },
    {
        match self.mailbox.try_send(command) {
            Ok(()) => None,
            Err(command) => {
                let response = self.step();
                let sent = self.mailbox.try_send(command);
                match sent {
                    Ok(()) => {}
                    Err(_) => {
                        proof {
                            assert(false);
                        }
                    }
                }
                match response {
                    Some(r) => Some(r),
                    None => unreached(),
                }
            }
        }
    }

    /// The dispatch loop: process every pending command strictly in arrival
    /// order, collecting the responses in that order.
    pub fn run(&mut self) -> (responses: Vec<S::Response>)
        ensures
            final(self).capacity() == old(self).capacity(),
            final(self).pending().len() == 0,
            runs_to(old(self).state(), old(self).pending(), final(self).state(), responses@),
    {
        let mut responses: Vec<S::Response> = Vec::new();
        while self.mailbox.len() > 0
            invariant
                self.capacity() == old(self).capacity(),
                responses@.len() + self.pending().len() == old(self).pending().len(),
                self.pending() =~= old(self).pending().skip(responses@.len() as int),
                runs_to(
                    old(self).state(),
                    old(self).pending().take(responses@.len() as int),
                    self.state(),
                    responses@,
                ),
            decreases self.pending().len(),
        {
            let ghost pre_state = self.state();
            let ghost processed = responses@.len() as int;
            match self.step() {
                Some(r) => {
                    proof {
                        lemma_runs_to_step(
                            old(self).state(),
                            old(self).pending().take(processed),
                            pre_state,
                            responses@,
                            old(self).pending()[processed],
                            self.state(),
                            r,
                        );
                        assert(old(self).pending().take(processed).push(
                            old(self).pending()[processed],
                        ) =~= old(self).pending().take(processed + 1));
                        assert(old(self).pending().skip(processed).drop_first() =~= old(
                            self,
                        ).pending().skip(processed + 1));
                    }
                    responses.push(r);
                }
                None => {
                    proof {
                        assert(false);
                    }
                }
            }
        }
        proof {
            assert(old(self).pending().take(responses@.len() as int) =~= old(self).pending());
        }
        responses
    }
}

} // verus!
