//! The single-slot mailbox that holds the most recent handle waiting for a
//! reply of the user.

use vstd::prelude::*;

verus! {

/// A value on its way to the handle that waits for it.
#[derive(Debug, PartialEq, Eq)]
pub struct Reply<C, T> {
    pub channel: C,
    pub value: T,
}

/// The most recent handle that waits for a reply, if any. A new handle takes
/// the place of the one before it, which is dropped unanswered.
pub struct PendingReply<C> {
    slot: Option<C>,
}

impl<C> View for PendingReply<C> {
    type V = Option<C>;

    closed spec fn view(&self) -> Option<C> {
        self.slot
    }
}

/// What a slot holds once `channel` was installed into it: that handle,
/// whatever it held before.
pub open spec fn after_install<C>(pending: Option<C>, channel: C) -> Option<C> {
    Some(channel)
}

/// Where a value goes that is submitted to a slot: to the handle that the slot
/// holds, and nowhere if it holds none.
pub open spec fn delivery<C, T>(pending: Option<C>, value: T) -> Option<Reply<C, T>> {
    match pending {
        Some(channel) => Some(Reply { channel, value }),
        None => None,
    }
}

impl<C> PendingReply<C> {
    /// An empty slot.
    pub fn new() -> (slot: Self)
        ensures
            slot@ is None,
    {
        PendingReply { slot: None }
    }

    /// Whether a handle waits for a reply.
    pub fn is_pending(&self) -> (pending: bool)
        ensures
            pending == (self@ is Some),
    {
        self.slot.is_some()
    }

    /// Puts `channel` into the slot. A handle that was there is dropped.
    pub fn install(&mut self, channel: C)
        ensures
            final(self)@ == after_install(old(self)@, channel),
    {
        self.slot = Some(channel);
    }

    /// Takes the waiting handle out of the slot.
    pub fn take(&mut self) -> (channel: Option<C>)
        ensures
            channel == old(self)@,
            final(self)@ is None,
    {
        self.slot.take()
    }

    /// Empties the slot; a handle that was there is dropped.
    pub fn clear(&mut self)
        ensures
            final(self)@ is None,
    {
        self.slot = None;
    }

    /// Pairs `value` with the waiting handle and empties the slot. With no
    /// handle waiting the value goes nowhere and the slot stays empty.
    pub fn fulfil<T>(&mut self, value: T) -> (reply: Option<Reply<C, T>>)
        ensures
            reply == delivery(old(self)@, value),
            final(self)@ is None,
    {
        match self.slot.take() {
            Some(channel) => Some(Reply { channel, value }),
            None => None,
        }
    }
}

/// Last write wins: after `first` and then `second` were installed, a submitted
/// value goes to `second` alone, whatever the slot held before; `first` is no
/// longer in the slot and can never be answered through it.
pub proof fn lemma_last_write_wins<C, T>(pending: Option<C>, first: C, second: C, value: T)
    ensures
        delivery(after_install(after_install(pending, first), second), value) == Some(
            Reply { channel: second, value },
        ),
{
}

/// A value submitted to an empty slot goes nowhere, and a handle installed
/// afterwards receives the next value as if nothing had been submitted.
pub proof fn lemma_empty_submit_is_noop<C, T>(channel: C, early: T, value: T)
    ensures
        delivery(None::<C>, early) is None,
        delivery(after_install(None::<C>, channel), value) == Some(Reply { channel, value }),
{
}

} // verus!
