//! The errors that end a ceremony.

use vstd::prelude::*;
use vstd::string::StringExecFns;

verus! {

/// The kinds of failure that an authenticator session reports.
#[derive(Debug, Clone, Copy, PartialEq, Eq)]
pub enum AuthenticatorErrorKind {
    Io,
    InvalidRelyingPartyInput,
    NoConfiguredTransports,
    Platform,
    InternalError,
    U2FToken,
    Custom,
    VersionMismatch,
    HIDError,
    CryptoError,
    PinError,
    UnsupportedOption,
    CancelledByUser,
    CredentialExcluded,
}

/// A failure that an authenticator session reported: its kind, and the text
/// that the session gave for it.
#[derive(Debug, Clone, PartialEq, Eq)]
pub struct AuthenticatorError {
    pub kind: AuthenticatorErrorKind,
    pub message: String,
}

/// Why a ceremony ended without a response.
#[derive(Debug, Clone, PartialEq, Eq)]
pub enum Error {
    /// Input or output failed; the text is the system's.
    Io(String),
    /// The platform's native plugin failed; the text is the plugin's.
    PluginInvoke(String),
    /// A transport backend failed; the text describes its error.
    WebAuthn(String),
    /// The client data could not be written as JSON; the text says why.
    SerdeJson(String),
    /// Enumeration ended and no token was found.
    NoToken,
    /// A token appeared, but no session could be negotiated with it.
    Authenticator,
    /// The authenticator session reported a failure; it is handed on as it came.
    Ctap2(AuthenticatorError),
    /// A result could not be written as CBOR; the text is the encoder's.
    Cbor2(String),
    /// A salt of the hmac-secret extension is not 32 bytes long.
    InvalidSalt,
    /// The session answered an authentication without naming the credential
    /// that signed.
    MalformedResponse,
}

pub const NO_TOKEN_MESSAGE: &'static str = "No token found";

pub const AUTHENTICATOR_MESSAGE: &'static str = "Failed to create authenticator";

pub const WEBAUTHN_PREFIX: &'static str = "WebAuthn error: ";

pub const INVALID_SALT_MESSAGE: &'static str = "hmac-secret salt must be 32 bytes long";

pub const MALFORMED_RESPONSE_MESSAGE: &'static str = "The authenticator named no credential";

impl Error {
    /// The text that describes the error to the application.
    pub open spec fn message_text(self) -> Seq<char> {
        match self {
            Error::Io(text) => text@,
            Error::PluginInvoke(text) => text@,
            Error::WebAuthn(text) => WEBAUTHN_PREFIX@ + text@,
            Error::SerdeJson(text) => text@,
            Error::NoToken => NO_TOKEN_MESSAGE@,
            Error::Authenticator => AUTHENTICATOR_MESSAGE@,
            Error::Ctap2(error) => error.message@,
            Error::Cbor2(text) => text@,
            Error::InvalidSalt => INVALID_SALT_MESSAGE@,
            Error::MalformedResponse => MALFORMED_RESPONSE_MESSAGE@,
        }
    }

    /// Whether the error says that the ceremony was cancelled, as opposed to
    /// having failed.
    pub open spec fn cancelled(self) -> bool {
        self matches Error::Ctap2(error) && error.kind is CancelledByUser
    }

    /// The text that describes the error to the application. An error that
    /// came from outside is described in the words it came with.
    pub fn message(&self) -> (text: String)
        ensures
            text@ == self.message_text(),
    {
        match self {
            Error::Io(text) => text.clone(),
            Error::PluginInvoke(text) => text.clone(),
            Error::WebAuthn(text) => String::from_str(WEBAUTHN_PREFIX).concat(text.as_str()),
            Error::SerdeJson(text) => text.clone(),
            Error::NoToken => String::from_str(NO_TOKEN_MESSAGE),
            Error::Authenticator => String::from_str(AUTHENTICATOR_MESSAGE),
            Error::Ctap2(error) => error.message.clone(),
            Error::Cbor2(text) => text.clone(),
            Error::InvalidSalt => String::from_str(INVALID_SALT_MESSAGE),
            Error::MalformedResponse => String::from_str(MALFORMED_RESPONSE_MESSAGE),
        }
    }

    /// Whether the ceremony was cancelled: callers tell a cancellation from a
    /// failure by this.
    pub fn is_cancellation(&self) -> (cancelled: bool)
        ensures
            cancelled == self.cancelled(),
    {
        match self {
            Error::Ctap2(error) => match error.kind {
                AuthenticatorErrorKind::CancelledByUser => true,
                _ => false,
            },
            _ => false,
        }
    }
}

} // verus!
