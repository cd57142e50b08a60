//! The status relay: what becomes of each notification that the session
//! produces while a ceremony runs.

use crate::models::{PinEvent, StatusPinUv, StatusUpdate, WebauthnEvent};
use crate::pending::{after_install, delivery, PendingReply, Reply};
use vstd::prelude::*;

verus! {

/// What a slot holds once a notification was relayed: the handle that the
/// notification carried, and what the slot held before where it carried none.
pub open spec fn after_status<C>(pending: Option<C>, carried: Option<C>) -> Option<C> {
    match carried {
        Some(channel) => after_install(pending, channel),
        None => pending,
    }
}

/// Relays one notification. A handle that waits for a PIN or for a selection
/// goes into its slot, in place of the one before it, before the event is
/// returned; the caller emits the event and does not wait for the application.
/// A notification that asks for no reply leaves both slots as they are. Every
/// notification gives an event, so the relay has something to emit for each
/// and goes on with the next.
pub fn status<P, S>(
    pin_sender: &mut PendingReply<P>,
    select_sender: &mut PendingReply<S>,
    update: StatusUpdate<P, S>,
) -> (event: WebauthnEvent)
    ensures
        event == update.event(),
        final(pin_sender)@ == after_status(old(pin_sender)@, update.pin_channel()),
        final(select_sender)@ == after_status(old(select_sender)@, update.select_channel()),
{
    match update {
        StatusUpdate::SelectDeviceNotice => WebauthnEvent::SelectDevice,
        StatusUpdate::PresenceRequired => WebauthnEvent::PresenceRequired,
        StatusUpdate::PinUvError(pin_status) => {
            let (channel, event) = pin_status.split();
            match channel {
                Some(channel) => pin_sender.install(channel),
                None => {},
            }
            match event {
                Some(event) => WebauthnEvent::PinEvent { event },
                None => WebauthnEvent::Generic,
            }
        },
        StatusUpdate::SelectResultNotice(channel, users) => {
            select_sender.install(channel);
            WebauthnEvent::SelectKey { keys: users }
        },
        StatusUpdate::InteractiveManagement => WebauthnEvent::Generic,
    }
}

/// A PIN that is submitted after a notification asked for one goes to the
/// handle of that notification, whatever the slot held before: the attempt is
/// never dropped.
pub proof fn lemma_requested_pin_is_delivered<P, S, T>(
    pending: Option<P>,
    status: StatusUpdate<P, S>,
    pin: T,
)
    requires
        status.pin_channel() is Some,
    ensures
        delivery(after_status(pending, status.pin_channel()), pin) == Some(
            Reply { channel: status.pin_channel()->0, value: pin },
        ),
        status.event() matches WebauthnEvent::PinEvent { event } && (event is PinRequired
            || event is InvalidPin),
{
}

/// A notification of an invalid PIN tells the application how many attempts
/// are left, as the authenticator counted them.
pub proof fn lemma_invalid_pin_reports_attempts<P, S>(channel: P, attempts: Option<u8>)
    ensures
        StatusUpdate::<P, S>::PinUvError(StatusPinUv::InvalidPin(channel, attempts)).event() == (
            WebauthnEvent::PinEvent { event: PinEvent::InvalidPin { attempts_remaining: attempts } }
        ),
{
}

} // verus!
