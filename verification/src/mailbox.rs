//! The two channels an actor is reached through.
//!
//! A [`Mailbox`] is a bounded, ordered queue of commands feeding one actor's
//! dispatch loop; a full mailbox refuses a message, which is what suspends a
//! sender until the loop drains a slot.  A [`ReplySlot`] is the single-use
//! return channel of one call: it ends up either answered with exactly one
//! value or abandoned, and an abandoned slot signals "actor gone" to the
//! waiting caller instead of a value.

use vstd::prelude::*;

verus! {

/// A bounded FIFO queue of pending commands.
///
/// The queue's view is the sequence of pending commands, oldest first; the
/// bound fixed at creation never changes.
pub struct Mailbox<T> {
    queue: Vec<T>,
    bound: usize,
}

impl<T> View for Mailbox<T> {
    type V = Seq<T>;

    closed spec fn view(&self) -> Seq<T> {
        self.queue@
    }
}

impl<T> Mailbox<T> {
    /// The fixed number of commands the mailbox can hold.
    pub closed spec fn capacity(self) -> nat {
        self.bound as nat
    }

    /// A mailbox holding no more commands than its bound.  Every mailbox
    /// this module hands out is well-formed, and every operation on one
    /// keeps it so; both facts follow from the operations' contracts.
    pub open spec fn well_formed(self) -> bool {
        self@.len() <= self.capacity()
    }

    /// An empty mailbox that holds at most `bound` pending commands.
    pub fn new(bound: usize) -> (m: Self)
        ensures
            m@ == Seq::<T>::empty(),
            m.capacity() == bound as nat,
    {
        Mailbox { queue: Vec::new(), bound }
    }

    /// How many commands are pending.
    pub fn len(&self) -> (n: usize)
        ensures
            n as nat == self@.len(),
    {
        self.queue.len()
    }

    /// Enqueue a command at the back, or hand it back when the mailbox is
    /// full.  A refused send is what makes a real sender wait.
    pub fn try_send(&mut self, command: T) -> (r: Result<(), T>)
        ensures
            old(self)@.len() < old(self).capacity() ==> {
                &&& r is Ok
                &&& final(self)@ == old(self)@.push(command)
            },
            old(self)@.len() >= old(self).capacity() ==> {
                &&& r == Err::<(), T>(command)
                &&& final(self)@ == old(self)@
            },
            final(self).capacity() == old(self).capacity(),
    {
        if self.queue.len() < self.bound {
            self.queue.push(command);
            Ok(())
        } else {
            Err(command)
        }
    }

    /// Dequeue the oldest pending command, if any.
    pub fn try_recv(&mut self) -> (r: Option<T>)
        ensures
            old(self)@.len() == 0 ==> {
                &&& r is None
                &&& final(self)@ == old(self)@
            },
            old(self)@.len() > 0 ==> {
                &&& r == Some(old(self)@[0])
                &&& final(self)@ == old(self)@.drop_first()
            },
            final(self).capacity() == old(self).capacity(),
    {
        if self.queue.len() == 0 {
            None
        } else {
            Some(self.queue.remove(0))
        }
    }
}

/// The error a caller observes when the actor's task ended before answering
/// its call.
#[derive(Debug, PartialEq, Eq, Structural)]
pub struct ActorError {}

/// The single-use return channel of one actor call.
///
/// The dispatch loop either delivers exactly one value into the slot or
/// abandons it (the loop ended, or dropped the slot, before answering); the
/// caller then takes a value or the actor-gone signal out of it.
pub enum ReplySlot<T> {
    /// No value delivered yet; the caller would still be waiting.
    Waiting,
    /// The operation's result was delivered.
    Answered(T),
    /// The dispatch side was discarded before a value was sent.
    Abandoned,
}

/// What a caller's wait resolves to once the slot is no longer waiting.
pub open spec fn resolved<T>(slot: ReplySlot<T>) -> Result<T, ActorError> {
    match slot {
        ReplySlot::Waiting => Err(ActorError {}),
        ReplySlot::Answered(v) => Ok(v),
        ReplySlot::Abandoned => Err(ActorError {}),
    }
}

impl<T> ReplySlot<T> {
    /// A slot whose caller is waiting for the reply.
    pub fn new() -> (s: Self)
        ensures
            s is Waiting,
    {
        ReplySlot::Waiting
    }

    /// Deliver the operation's result.  Delivery into an abandoned slot is
    /// silently ignored: a caller that stopped waiting is never an error for
    /// the actor.  A slot answers at most once.
    pub fn deliver(&mut self, value: T)
        requires
            !(*old(self) is Answered),
        ensures
            *old(self) is Waiting ==> *final(self) == ReplySlot::Answered(value),
            *old(self) is Abandoned ==> *final(self) == ReplySlot::<T>::Abandoned,
    {
        match self {
            ReplySlot::Abandoned => {}
            _ => {
                *self = ReplySlot::Answered(value);
            }
        }
    }

    /// Record that the dispatch side was discarded before answering.
    pub fn abandon(&mut self)
        requires
            *old(self) is Waiting,
        ensures
            *final(self) == ReplySlot::<T>::Abandoned,
    {
        *self = ReplySlot::Abandoned;
    }

    /// Resolve the caller's wait.  The wait only returns once the dispatch
    /// side has answered or been discarded, so the slot is no longer waiting.
    pub fn take(self) -> (r: Result<T, ActorError>)
        requires
            !(self is Waiting),
        ensures
            r == resolved(self),
    {
        match self {
            ReplySlot::Answered(v) => Ok(v),
            _ => Err(ActorError {}),
        }
    }
}

/// Actor-gone signaling: a dispatch side discarded before it answered makes
/// the caller's wait resolve to the actor-gone error, never to a value and
/// never to more waiting.
pub proof fn lemma_actor_gone<T>(slot: ReplySlot<T>)
    requires
        slot is Abandoned,
    ensures
        resolved(slot) == Err::<T, ActorError>(ActorError {}),
{
}

} // verus!
