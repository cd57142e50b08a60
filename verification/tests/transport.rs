use std::cell::Cell;
use webauthn_bridge::backend::{prefer_resident_key, Backend};
use webauthn_bridge::error::{AuthenticatorError, AuthenticatorErrorKind, Error};
use webauthn_bridge::proto::{
    AuthenticatorAttachment, AuthenticatorSelectionCriteria, ResidentKeyRequirement,
    UserVerificationPolicy,
};
use webauthn_bridge::transport::{
    exhausted, negotiated, next_step, select_transport, Selection, TokenEvent,
};

type Event = TokenEvent<&'static str, u32>;

fn open(token: &'static str) -> Option<String> {
    Some(format!("session with {token}"))
}

#[test]
fn the_first_token_is_negotiated_with() {
    let events: Vec<Event> = vec![
        TokenEvent::Removed(4),
        TokenEvent::Added("usb"),
        TokenEvent::Added("nfc"),
        TokenEvent::EnumerationComplete,
    ];
    assert_eq!(select_transport(events, open), Ok("session with usb".to_string()));
}

#[test]
fn enumeration_complete_without_a_token_is_no_token() {
    let events: Vec<Event> =
        vec![TokenEvent::Removed(1), TokenEvent::EnumerationComplete, TokenEvent::Added("late")];
    let asked = Cell::new(false);
    let bound = select_transport(events, |token| {
        asked.set(true);
        open(token)
    });
    assert_eq!(bound, Err(Error::NoToken));
    assert!(!asked.get());
}

#[test]
fn the_end_of_the_reports_is_no_token() {
    assert_eq!(select_transport(Vec::<Event>::new(), open), Err(Error::NoToken));
    let removals: Vec<Event> = vec![TokenEvent::Removed(1), TokenEvent::Removed(2)];
    assert_eq!(select_transport(removals, open), Err(Error::NoToken));
}

#[test]
fn a_failed_negotiation_is_not_retried() {
    let events: Vec<Event> = vec![TokenEvent::Added("broken"), TokenEvent::Added("fine")];
    let asked = Cell::new(0);
    let bound = select_transport(events, |token| {
        asked.set(asked.get() + 1);
        if token == "broken" {
            None
        } else {
            open(token)
        }
    });
    assert_eq!(bound, Err(Error::Authenticator));
    assert_eq!(asked.get(), 1);
}

#[test]
fn each_report_has_its_step() {
    assert!(matches!(next_step::<u8, u8>(Some(TokenEvent::Added(7))), Selection::Negotiate(7)));
    assert!(matches!(next_step::<u8, u8>(Some(TokenEvent::Removed(7))), Selection::Continue));
    assert!(matches!(
        next_step::<u8, u8>(Some(TokenEvent::EnumerationComplete)),
        Selection::GiveUp
    ));
    assert!(matches!(next_step::<u8, u8>(None), Selection::GiveUp));
    assert_eq!(negotiated(Some(1u8)), Ok(1u8));
    assert_eq!(negotiated(None::<u8>), Err(Error::Authenticator));
    assert_eq!(exhausted::<u8>(), Err(Error::NoToken));
}

#[test]
fn error_messages() {
    assert_eq!(Error::NoToken.message(), "No token found");
    assert_eq!(Error::Authenticator.message(), "Failed to create authenticator");
    assert_eq!(
        Error::WebAuthn("Cancel".to_string()).message(),
        "WebAuthn error: Cancel"
    );
    assert_eq!(Error::Io("broken pipe".to_string()).message(), "broken pipe");
    assert_eq!(Error::PluginInvoke("no plugin".to_string()).message(), "no plugin");
    assert_eq!(Error::SerdeJson("expected value".to_string()).message(), "expected value");
    assert_eq!(Error::Cbor2("invalid type".to_string()).message(), "invalid type");
    assert_eq!(Error::InvalidSalt.message(), "hmac-secret salt must be 32 bytes long");
    assert_eq!(Error::MalformedResponse.message(), "The authenticator named no credential");
    let ctap2 = Error::Ctap2(AuthenticatorError {
        kind: AuthenticatorErrorKind::CredentialExcluded,
        message: "Credential excluded.".to_string(),
    });
    assert_eq!(ctap2.message(), "Credential excluded.");
}

#[test]
fn only_a_cancellation_is_a_cancellation() {
    let cancelled = Error::Ctap2(AuthenticatorError {
        kind: AuthenticatorErrorKind::CancelledByUser,
        message: "Cancelled by user.".to_string(),
    });
    assert!(cancelled.is_cancellation());
    for kind in [
        AuthenticatorErrorKind::Io,
        AuthenticatorErrorKind::InvalidRelyingPartyInput,
        AuthenticatorErrorKind::NoConfiguredTransports,
        AuthenticatorErrorKind::Platform,
        AuthenticatorErrorKind::InternalError,
        AuthenticatorErrorKind::U2FToken,
        AuthenticatorErrorKind::Custom,
        AuthenticatorErrorKind::VersionMismatch,
        AuthenticatorErrorKind::HIDError,
        AuthenticatorErrorKind::CryptoError,
        AuthenticatorErrorKind::PinError,
        AuthenticatorErrorKind::UnsupportedOption,
        AuthenticatorErrorKind::CredentialExcluded,
    ] {
        let failed = Error::Ctap2(AuthenticatorError { kind, message: String::new() });
        assert!(!failed.is_cancellation());
    }
    for failed in [
        Error::Io(String::new()),
        Error::PluginInvoke(String::new()),
        Error::WebAuthn("Cancel".to_string()),
        Error::SerdeJson(String::new()),
        Error::NoToken,
        Error::Authenticator,
        Error::Cbor2(String::new()),
        Error::InvalidSalt,
        Error::MalformedResponse,
    ] {
        assert!(!failed.is_cancellation());
    }
}

#[test]
fn only_the_token_backend_mediates() {
    assert!(Backend::Ctap2.mediates());
    assert!(!Backend::Native.mediates());
    assert!(!Backend::Mobile.mediates());
}

#[test]
fn mobile_registrations_prefer_a_resident_key() {
    assert_eq!(prefer_resident_key(None), None);
    for asked in [
        None,
        Some(ResidentKeyRequirement::Discouraged),
        Some(ResidentKeyRequirement::Preferred),
        Some(ResidentKeyRequirement::Required),
    ] {
        let criteria = AuthenticatorSelectionCriteria {
            authenticator_attachment: Some(AuthenticatorAttachment::Platform),
            resident_key: asked,
            require_resident_key: false,
            user_verification: UserVerificationPolicy::Preferred,
        };
        assert_eq!(
            prefer_resident_key(Some(criteria)),
            Some(AuthenticatorSelectionCriteria {
                authenticator_attachment: Some(AuthenticatorAttachment::Platform),
                resident_key: Some(ResidentKeyRequirement::Preferred),
                require_resident_key: false,
                user_verification: UserVerificationPolicy::Preferred,
            })
        );
    }
}
