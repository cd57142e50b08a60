//! Events that the bridge publishes to the application, and the status
//! notifications of an authenticator session that they are made from.

use crate::ctap2::PublicKeyCredentialUserEntity;
use vstd::prelude::*;

verus! {

/// Progress of a fingerprint enrolment, as a backend reports it.
#[derive(Debug, Clone, PartialEq, Eq)]
pub struct FingerprintEnrollmentFeedback {
    pub remaining_samples: u32,
    pub feedback: Option<u8>,
}

/// The PIN and user-verification conditions that the application is told of.
#[derive(Debug, Clone, PartialEq, Eq)]
pub enum PinEvent {
    PinRequired,
    InvalidPin { attempts_remaining: Option<u8> },
    PinAuthBlocked,
    PinBlocked,
    InvalidUv { attempts_remaining: Option<u8> },
    UvBlocked,
}

/// What the bridge emits to the application while a ceremony runs.
#[derive(Debug, Clone, PartialEq, Eq)]
pub enum WebauthnEvent {
    SelectDevice,
    PresenceRequired,
    PinEvent { event: PinEvent },
    SelectKey { keys: Vec<PublicKeyCredentialUserEntity> },
    FingerprintEnrollmentFeedback(FingerprintEnrollmentFeedback),
    Processing,
    RequestPin,
    RequestTouch,
    /// The session reported something that asks nothing of the user.
    Generic,
}

/// A PIN or user-verification status of the session. `P` is the handle through
/// which a PIN is handed back to the session; only the two variants that ask
/// for a PIN carry one.
pub enum StatusPinUv<P> {
    PinRequired(P),
    InvalidPin(P, Option<u8>),
    PinIsTooShort,
    PinIsTooLong(usize),
    InvalidUv(Option<u8>),
    PinAuthBlocked,
    PinBlocked,
    PinNotSet,
    UvBlocked,
}

/// A notification that the session produces in the middle of a ceremony. `P`
/// and `S` are the handles through which a PIN and a selection are handed back.
pub enum StatusUpdate<P, S> {
    /// The user has to touch the token.
    PresenceRequired,
    /// A PIN is needed or was wrong, or user verification failed.
    PinUvError(StatusPinUv<P>),
    /// Several devices were found and the user has to pick one.
    SelectDeviceNotice,
    /// A step of the interactive management of a token.
    InteractiveManagement,
    /// The token holds several credentials and the user has to pick one.
    SelectResultNotice(S, Vec<PublicKeyCredentialUserEntity>),
}

impl<P> StatusPinUv<P> {
    /// The event that tells the application of this status, where there is one.
    /// The statuses of setting a new PIN have none.
    pub open spec fn event(self) -> Option<PinEvent> {
        match self {
            StatusPinUv::PinRequired(_) => Some(PinEvent::PinRequired),
            StatusPinUv::InvalidPin(_, attempts) => Some(
                PinEvent::InvalidPin { attempts_remaining: attempts },
            ),
            StatusPinUv::PinAuthBlocked => Some(PinEvent::PinAuthBlocked),
            StatusPinUv::PinBlocked => Some(PinEvent::PinBlocked),
            StatusPinUv::InvalidUv(attempts) => Some(
                PinEvent::InvalidUv { attempts_remaining: attempts },
            ),
            StatusPinUv::UvBlocked => Some(PinEvent::UvBlocked),
            StatusPinUv::PinIsTooShort => None,
            StatusPinUv::PinIsTooLong(_) => None,
            StatusPinUv::PinNotSet => None,
        }
    }

    /// The handle that waits for a PIN, where the status carries one.
    pub open spec fn reply_channel(self) -> Option<P> {
        match self {
            StatusPinUv::PinRequired(channel) => Some(channel),
            StatusPinUv::InvalidPin(channel, _) => Some(channel),
            _ => None,
        }
    }

    /// Parts the status into the handle that waits for a PIN and the event
    /// that tells of it. Nothing of the status is lost or altered.
    pub fn split(self) -> (parts: (Option<P>, Option<PinEvent>))
        ensures
            parts.0 == self.reply_channel(),
            parts.1 == self.event(),
    {
        match self {
            StatusPinUv::PinRequired(channel) => (Some(channel), Some(PinEvent::PinRequired)),
            StatusPinUv::InvalidPin(channel, attempts) => (
                Some(channel),
                Some(PinEvent::InvalidPin { attempts_remaining: attempts }),
            ),
            StatusPinUv::PinAuthBlocked => (None, Some(PinEvent::PinAuthBlocked)),
            StatusPinUv::PinBlocked => (None, Some(PinEvent::PinBlocked)),
            StatusPinUv::InvalidUv(attempts) => (
                None,
                Some(PinEvent::InvalidUv { attempts_remaining: attempts }),
            ),
            StatusPinUv::UvBlocked => (None, Some(PinEvent::UvBlocked)),
            StatusPinUv::PinIsTooShort => (None, None),
            StatusPinUv::PinIsTooLong(_) => (None, None),
            StatusPinUv::PinNotSet => (None, None),
        }
    }
}

pub const PIN_REQUIRED: &'static str = "pinRequired";

pub const INVALID_PIN: &'static str = "invalidPin";

pub const PIN_AUTH_BLOCKED: &'static str = "pinAuthBlocked";

pub const PIN_BLOCKED: &'static str = "pinBlocked";

pub const INVALID_UV: &'static str = "invalidUv";

pub const UV_BLOCKED: &'static str = "uvBlocked";

pub const SELECT_DEVICE: &'static str = "selectDevice";

pub const PRESENCE_REQUIRED: &'static str = "presenceRequired";

pub const PIN_ERROR: &'static str = "pinError";

pub const SELECT_KEY: &'static str = "selectKey";

pub const FINGERPRINT_ENROLLMENT_FEEDBACK: &'static str = "fingerprintEnrollmentFeedback";

pub const PROCESSING: &'static str = "processing";

pub const REQUEST_PIN: &'static str = "requestPin";

pub const REQUEST_TOUCH: &'static str = "requestTouch";

pub const GENERIC: &'static str = "generic";

impl PinEvent {
    /// The name by which the application tells the conditions apart.
    pub open spec fn kind_text(self) -> Seq<char> {
        match self {
            PinEvent::PinRequired => PIN_REQUIRED@,
            PinEvent::InvalidPin { .. } => INVALID_PIN@,
            PinEvent::PinAuthBlocked => PIN_AUTH_BLOCKED@,
            PinEvent::PinBlocked => PIN_BLOCKED@,
            PinEvent::InvalidUv { .. } => INVALID_UV@,
            PinEvent::UvBlocked => UV_BLOCKED@,
        }
    }

    /// The name by which the application tells the conditions apart.
    pub fn kind_name(&self) -> (name: &'static str)
        ensures
            name@ == self.kind_text(),
    {
        match self {
            PinEvent::PinRequired => PIN_REQUIRED,
            PinEvent::InvalidPin { .. } => INVALID_PIN,
            PinEvent::PinAuthBlocked => PIN_AUTH_BLOCKED,
            PinEvent::PinBlocked => PIN_BLOCKED,
            PinEvent::InvalidUv { .. } => INVALID_UV,
            PinEvent::UvBlocked => UV_BLOCKED,
        }
    }

    /// The event for a status that has one. The handle that the status may
    /// carry is dropped.
    pub fn from<P>(status: StatusPinUv<P>) -> (event: PinEvent)
        requires
            status.event() is Some,
        ensures
            Some(event) == status.event(),
    {
        match status {
            StatusPinUv::PinRequired(_) => PinEvent::PinRequired,
            StatusPinUv::InvalidPin(_, attempts) => PinEvent::InvalidPin {
                attempts_remaining: attempts,
            },
            StatusPinUv::PinAuthBlocked => PinEvent::PinAuthBlocked,
            StatusPinUv::PinBlocked => PinEvent::PinBlocked,
            StatusPinUv::InvalidUv(attempts) => PinEvent::InvalidUv {
                attempts_remaining: attempts,
            },
            StatusPinUv::UvBlocked => PinEvent::UvBlocked,
            _ => unreached(),
        }
    }

    /// The number of attempts that the authenticator still grants, where the
    /// event tells it.
    pub fn attempts_remaining(&self) -> (attempts: Option<u8>)
        ensures
            attempts == match *self {
                PinEvent::InvalidPin { attempts_remaining } => attempts_remaining,
                PinEvent::InvalidUv { attempts_remaining } => attempts_remaining,
                _ => None,
            },
    {
        match self {
            PinEvent::InvalidPin { attempts_remaining } => *attempts_remaining,
            PinEvent::InvalidUv { attempts_remaining } => *attempts_remaining,
            _ => None,
        }
    }
}

impl<P, S> StatusUpdate<P, S> {
    /// The event that tells the application of this notification. Every
    /// notification has one: a notification that asks nothing of the user and
    /// has no event of its own (a step of token management, or of setting a
    /// new PIN) is told as a generic event.
    pub open spec fn event(self) -> WebauthnEvent {
        match self {
            StatusUpdate::SelectDeviceNotice => WebauthnEvent::SelectDevice,
            StatusUpdate::PresenceRequired => WebauthnEvent::PresenceRequired,
            StatusUpdate::PinUvError(status) => match status.event() {
                Some(event) => WebauthnEvent::PinEvent { event },
                None => WebauthnEvent::Generic,
            },
            StatusUpdate::SelectResultNotice(_, users) => WebauthnEvent::SelectKey { keys: users },
            StatusUpdate::InteractiveManagement => WebauthnEvent::Generic,
        }
    }

    /// The handle that waits for a PIN, where the notification carries one.
    pub open spec fn pin_channel(self) -> Option<P> {
        match self {
            StatusUpdate::PinUvError(status) => status.reply_channel(),
            _ => None,
        }
    }

    /// The handle that waits for a selection, where the notification carries one.
    pub open spec fn select_channel(self) -> Option<S> {
        match self {
            StatusUpdate::SelectResultNotice(channel, _) => Some(channel),
            _ => None,
        }
    }
}

impl WebauthnEvent {
    /// The type under which the event is delivered to the application.
    pub open spec fn kind_text(self) -> Seq<char> {
        match self {
            WebauthnEvent::SelectDevice => SELECT_DEVICE@,
            WebauthnEvent::PresenceRequired => PRESENCE_REQUIRED@,
            WebauthnEvent::PinEvent { .. } => PIN_ERROR@,
            WebauthnEvent::SelectKey { .. } => SELECT_KEY@,
            WebauthnEvent::FingerprintEnrollmentFeedback(_) => FINGERPRINT_ENROLLMENT_FEEDBACK@,
            WebauthnEvent::Processing => PROCESSING@,
            WebauthnEvent::RequestPin => REQUEST_PIN@,
            WebauthnEvent::RequestTouch => REQUEST_TOUCH@,
            WebauthnEvent::Generic => GENERIC@,
        }
    }

    /// The type under which the event is delivered to the application.
    pub fn kind_name(&self) -> (name: &'static str)
        ensures
            name@ == self.kind_text(),
    {
        match self {
            WebauthnEvent::SelectDevice => SELECT_DEVICE,
            WebauthnEvent::PresenceRequired => PRESENCE_REQUIRED,
            WebauthnEvent::PinEvent { .. } => PIN_ERROR,
            WebauthnEvent::SelectKey { .. } => SELECT_KEY,
            WebauthnEvent::FingerprintEnrollmentFeedback(_) => FINGERPRINT_ENROLLMENT_FEEDBACK,
            WebauthnEvent::Processing => PROCESSING,
            WebauthnEvent::RequestPin => REQUEST_PIN,
            WebauthnEvent::RequestTouch => REQUEST_TOUCH,
            WebauthnEvent::Generic => GENERIC,
        }
    }

    /// The event for a notification. The handles that the notification may
    /// carry are dropped.
    pub fn from<P, S>(status: StatusUpdate<P, S>) -> (event: WebauthnEvent)
        ensures
            event == status.event(),
    {
        match status {
            StatusUpdate::SelectDeviceNotice => WebauthnEvent::SelectDevice,
            StatusUpdate::PresenceRequired => WebauthnEvent::PresenceRequired,
            StatusUpdate::PinUvError(pin_status) => match pin_status.split().1 {
                Some(event) => WebauthnEvent::PinEvent { event },
                None => WebauthnEvent::Generic,
            },
            StatusUpdate::SelectResultNotice(_, users) => WebauthnEvent::SelectKey { keys: users },
            StatusUpdate::InteractiveManagement => WebauthnEvent::Generic,
        }
    }

    /// The event of a fingerprint enrolment step.
    pub fn fingerprint_enrollment_feedback(remaining_samples: u32, feedback: Option<u8>) -> (event:
        WebauthnEvent)
        ensures
            event == WebauthnEvent::FingerprintEnrollmentFeedback(
                FingerprintEnrollmentFeedback { remaining_samples, feedback },
            ),
    {
        WebauthnEvent::FingerprintEnrollmentFeedback(
            FingerprintEnrollmentFeedback { remaining_samples, feedback },
        )
    }
}

} // verus!
