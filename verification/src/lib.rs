//! The verified core of a WebAuthn authenticator bridge.
//!
//! An application asks for a registration or an authentication in the terms
//! of WebAuthn; an authenticator session answers in the terms of CTAP2. This
//! library holds what lies between the two and needs no device to be decided:
//!
//! - [`translate`] turns the options of a request into the arguments of a
//!   command, and the result of a command into the credential of a response;
//! - [`client_data`] makes the client data of a ceremony and its digest;
//! - [`ceremony`] drives one ceremony from the request to its single outcome,
//!   the session being handed in as a function;
//! - [`relay`] decides what becomes of each notification that the session
//!   produces while a ceremony runs, and [`bridge`] keeps the handles through
//!   which the user's PIN and selection find their way back;
//! - [`transport`] picks the token that a ceremony is bound to.
//!
//! Sessions, threads, locks and the delivery of events belong to the caller.

pub mod backend;
pub mod bridge;
pub mod ceremony;
pub mod client_data;
pub mod cose;
pub mod ctap2;
pub mod error;
pub mod models;
pub mod pending;
pub mod proto;
pub mod relay;
pub mod translate;
pub mod transport;

pub use crate::bridge::Webauthn;
pub use crate::error::Error;
pub use crate::models::{FingerprintEnrollmentFeedback, PinEvent, WebauthnEvent};
pub use crate::relay::status;
