//! Control commands and the FIFO command queue.
//!
//! Callers enqueue subscribe/unsubscribe commands through the session
//! handle; the session loop consumes them strictly in arrival order, one
//! at a time. Every command carries a ticket: the identifier of the
//! per-call completion channel on which the outcome of its handshake is
//! surfaced to the caller that issued it.

use vstd::prelude::*;

use crate::subs::SubscriptionSet;

verus! {

/// What a control command asks of the data source.
#[derive(Debug)]
pub enum ControlAction {
    /// Add the named symbols to the live feed.
    Subscribe(SubscriptionSet),
    /// Remove the named symbols from the live feed.
    Unsubscribe(SubscriptionSet),
}

/// One control request, created by a caller and consumed exactly once by
/// the session loop.
#[derive(Debug)]
pub struct Command {
    /// Identifies the issuing caller's completion channel.
    pub ticket: u64,
    /// The requested change to the subscription set.
    pub action: ControlAction,
}

/// Two control actions asking for the same thing: the same variant, over
/// subscription sets that select the same symbols for every kind.
pub open spec fn same_request(a: ControlAction, b: ControlAction) -> bool {
    match (a, b) {
        (ControlAction::Subscribe(x), ControlAction::Subscribe(y)) => crate::subs::same_symbols(
            x,
            y,
        ),
        (ControlAction::Unsubscribe(x), ControlAction::Unsubscribe(y)) => crate::subs::same_symbols(
            x,
            y,
        ),
        _ => false,
    }
}

impl Clone for ControlAction {
    /// A clone asks for the same thing.
    fn clone(&self) -> (r: Self)
        ensures
            same_request(r, *self),
    {
        match self {
            ControlAction::Subscribe(s) => ControlAction::Subscribe(s.clone()),
            ControlAction::Unsubscribe(s) => ControlAction::Unsubscribe(s.clone()),
        }
    }
}

impl Clone for Command {
    /// A clone carries the same ticket and asks for the same thing.
    fn clone(&self) -> (r: Self)
        ensures
            r.ticket == self.ticket,
            same_request(r.action, self.action),
    {
        Command { ticket: self.ticket, action: self.action.clone() }
    }
}

/// The tickets of a sequence of commands, in the same order.
pub open spec fn tickets_of(q: Seq<Command>) -> Seq<u64> {
    q.map_values(|c: Command| c.ticket)
}

/// Ordered multi-producer/single-consumer queue of control commands.
///
/// Producers append at the tail; the session loop takes from the head, so
/// commands are served strictly in arrival order.
#[derive(Debug)]
pub struct CommandQueue {
    items: Vec<Command>,
}

impl CommandQueue {
    /// The queued commands, oldest first.
    pub closed spec fn view(self) -> Seq<Command> {
        self.items@
    }

    /// An empty queue.
    pub fn new() -> (q: Self)
        ensures
            q@ == Seq::<Command>::empty(),
    {
        CommandQueue { items: Vec::new() }
    }

    /// How many commands are waiting.
    pub fn len(&self) -> (n: usize)
        ensures
            n == self@.len(),
    {
        self.items.len()
    }

    /// Appends a command at the tail.
    pub fn enqueue(&mut self, c: Command)
        ensures
            final(self)@ == old(self)@.push(c),
    {
        self.items.push(c);
    }

    /// Takes the oldest command, if any.
    pub fn dequeue(&mut self) -> (r: Option<Command>)
        ensures
            old(self)@.len() == 0 ==> r is None && final(self)@ == old(self)@,
            old(self)@.len() > 0 ==> r == Some(old(self)@[0]) && final(self)@ == old(self)@.drop_first(),
    {
        if self.items.len() == 0 {
            None
        } else {
            let c = self.items.remove(0);
            proof {
                assert(self.items@ =~= old(self)@.drop_first());
            }
            Some(c)
        }
    }
}

} // verus!
