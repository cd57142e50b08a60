//! The interaction mediator: the two slots through which the application's
//! PIN and selection reach the ceremony that asked for them.

use crate::ceremony::{
    authentication_finished, finish_authentication, finish_registration, registration_finished,
};
use crate::client_data::ClientData;
use crate::ctap2::{RegisterResult, SignResult};
use crate::error::Error;
use crate::models::{StatusUpdate, WebauthnEvent};
use crate::proto::{PublicKeyCredential, RegisterPublicKeyCredential};
use crate::pending::{delivery, PendingReply, Reply};
use crate::relay::{after_status, status};
use vstd::prelude::*;

verus! {

/// The bridge's state between the application and a running ceremony. `P` is
/// the handle through which a PIN is handed to the session, `S` the one for a
/// selection. The two slots are independent of each other.
pub struct Webauthn<P, S> {
    pin_reply: PendingReply<P>,
    select_reply: PendingReply<S>,
}

/// What the bridge holds: the handle that waits for a PIN and the one that
/// waits for a selection.
pub struct WebauthnView<P, S> {
    pub pin_reply: Option<P>,
    pub select_reply: Option<S>,
}

impl<P, S> View for Webauthn<P, S> {
    type V = WebauthnView<P, S>;

    closed spec fn view(&self) -> WebauthnView<P, S> {
        WebauthnView { pin_reply: self.pin_reply@, select_reply: self.select_reply@ }
    }
}

/// The bridge with nothing pending.
pub open spec fn idle<P, S>() -> WebauthnView<P, S> {
    WebauthnView { pin_reply: None, select_reply: None }
}

impl<P, S> WebauthnView<P, S> {
    /// The bridge after a notification was relayed.
    pub open spec fn relay(self, update: StatusUpdate<P, S>) -> WebauthnView<P, S> {
        WebauthnView {
            pin_reply: after_status(self.pin_reply, update.pin_channel()),
            select_reply: after_status(self.select_reply, update.select_channel()),
        }
    }

    /// The bridge after a PIN was submitted.
    pub open spec fn send_pin(self) -> WebauthnView<P, S> {
        WebauthnView { pin_reply: None, select_reply: self.select_reply }
    }

    /// The bridge after a selection was submitted.
    pub open spec fn select_key(self) -> WebauthnView<P, S> {
        WebauthnView { pin_reply: self.pin_reply, select_reply: None }
    }
}

impl<P, S> Webauthn<P, S> {
    /// The bridge as it starts: nothing is pending.
    pub fn init() -> (bridge: Self)
        ensures
            bridge@ == idle::<P, S>(),
    {
        Webauthn { pin_reply: PendingReply::new(), select_reply: PendingReply::new() }
    }

    /// Whether a notification waits for a PIN.
    pub fn pin_requested(&self) -> (pending: bool)
        ensures
            pending == (self@.pin_reply is Some),
    {
        self.pin_reply.is_pending()
    }

    /// Whether a notification waits for a selection.
    pub fn selection_requested(&self) -> (pending: bool)
        ensures
            pending == (self@.select_reply is Some),
    {
        self.select_reply.is_pending()
    }

    /// Relays one notification of the session: keeps the handle that it
    /// carries, and returns the event to emit.
    pub fn relay(&mut self, update: StatusUpdate<P, S>) -> (event: WebauthnEvent)
        ensures
            event == update.event(),
            final(self)@ == old(self)@.relay(update),
    {
        status(&mut self.pin_reply, &mut self.select_reply, update)
    }

    /// Submits a PIN. It goes to the handle of the most recent notification
    /// that asked for one, and that handle leaves the slot. With none pending
    /// nothing happens. The slot of the selection is not touched.
    pub fn send_pin(&mut self, pin: String) -> (reply: Option<Reply<P, String>>)
        ensures
            reply == delivery(old(self)@.pin_reply, pin),
            final(self)@ == old(self)@.send_pin(),
    {
        self.pin_reply.fulfil(pin)
    }

    /// Submits a selection: the index of the chosen credential, or `None` for
    /// no choice. It goes to the handle of the most recent notification that
    /// asked for a choice, and that handle leaves the slot. With none pending
    /// nothing happens. The slot of the PIN is not touched.
    pub fn submit_selection(&mut self, selection: Option<usize>) -> (reply: Option<
        Reply<S, Option<usize>>,
    >)
        ensures
            reply == delivery(old(self)@.select_reply, selection),
            final(self)@ == old(self)@.select_key(),
    {
        self.select_reply.fulfil(selection)
    }

    /// Submits the index of the chosen credential.
    pub fn select_key(&mut self, key: usize) -> (reply: Option<Reply<S, Option<usize>>>)
        ensures
            reply == delivery(old(self)@.select_reply, Some(key)),
            final(self)@ == old(self)@.select_key(),
    {
        self.submit_selection(Some(key))
    }

    /// Forgets what is pending once a ceremony has ended: both slots are
    /// emptied, so that a PIN or a selection that arrives late goes nowhere.
    pub fn clear(&mut self)
        ensures
            final(self)@ == idle::<P, S>(),
    {
        self.pin_reply.clear();
        self.select_reply.clear();
    }

    /// Ends a registration with the answer of the session. The outcome is
    /// what becomes of the answer: its error as it came, or the decoding of
    /// its result. Whatever the outcome, nothing is pending afterwards: a
    /// handle that the ended ceremony left unanswered is dropped.
    pub fn end_registration(
        &mut self,
        answer: Result<RegisterResult, Error>,
        client_data: ClientData,
    ) -> (outcome: Result<RegisterPublicKeyCredential, Error>)
        ensures
            registration_finished(answer, client_data.json@, outcome),
            final(self)@ == idle::<P, S>(),
    {
        self.clear();
        finish_registration(answer, client_data)
    }

    /// Ends an authentication with the answer of the session. The outcome is
    /// what becomes of the answer: its error as it came, the decoding of its
    /// result, or the error of a malformed response. Whatever the outcome,
    /// nothing is pending afterwards.
    pub fn end_authentication(
        &mut self,
        answer: Result<SignResult, Error>,
        client_data: ClientData,
    ) -> (outcome: Result<PublicKeyCredential, Error>)
        ensures
            authentication_finished(answer, client_data.json@, outcome),
            final(self)@ == idle::<P, S>(),
    {
        self.clear();
        finish_authentication(answer, client_data)
    }

    /// Ends what is pending when a ceremony is cancelled: both slots are
    /// emptied and their handles dropped, so that a session that waits on one
    /// of them fails instead of hanging. Returns whether anything was pending;
    /// with nothing pending this is a no-op.
    pub fn cancel(&mut self) -> (dropped: bool)
        ensures
            final(self)@ == idle::<P, S>(),
            dropped == (old(self)@.pin_reply is Some || old(self)@.select_reply is Some),
    {
        let dropped = self.pin_reply.is_pending() || self.select_reply.is_pending();
        self.clear();
        dropped
    }
}

/// An ended ceremony leaves nothing behind: a PIN or a selection that is
/// submitted after the end goes nowhere, whatever was pending before.
pub proof fn lemma_nothing_pending_after_the_end<P, S>(pin: String, key: usize)
    ensures
        delivery(idle::<P, S>().pin_reply, pin) is None,
        delivery(idle::<P, S>().select_reply, Some(key)) is None,
{
}

/// Submitting with nothing pending is safe: it delivers nothing, leaves the
/// bridge as it started, and a notification relayed afterwards is answered as
/// if nothing had been submitted.
pub proof fn lemma_submit_without_request<P, S>(update: StatusUpdate<P, S>, pin: String, key: usize)
    ensures
        delivery(idle::<P, S>().pin_reply, pin) is None,
        delivery(idle::<P, S>().select_reply, Some(key)) is None,
        idle::<P, S>().send_pin() == idle::<P, S>(),
        idle::<P, S>().select_key() == idle::<P, S>(),
        idle::<P, S>().send_pin().relay(update) == idle::<P, S>().relay(update),
        idle::<P, S>().select_key().relay(update) == idle::<P, S>().relay(update),
{
}

/// Last request wins: after two notifications that each carried a handle for a
/// PIN, a submitted PIN goes to the handle of the second one alone, and after
/// that no handle is pending.
pub proof fn lemma_last_request_wins<P, S>(
    bridge: WebauthnView<P, S>,
    first: StatusUpdate<P, S>,
    second: StatusUpdate<P, S>,
    pin: String,
)
    requires
        first.pin_channel() is Some,
        second.pin_channel() is Some,
    ensures
        delivery(bridge.relay(first).relay(second).pin_reply, pin) == Some(
            Reply { channel: second.pin_channel()->0, value: pin },
        ),
        bridge.relay(first).relay(second).send_pin().pin_reply is None,
{
}

/// The two slots do not touch each other: submitting a PIN leaves a pending
/// selection pending, and submitting a selection leaves a pending PIN pending.
pub proof fn lemma_slots_are_independent<P, S>(bridge: WebauthnView<P, S>)
    ensures
        bridge.send_pin().select_reply == bridge.select_reply,
        bridge.select_key().pin_reply == bridge.pin_reply,
{
}

} // verus!
