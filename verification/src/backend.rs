//! The backends behind the bridge, and what each of them asks of it.

use crate::proto::{AuthenticatorSelectionCriteria, ResidentKeyRequirement};
use vstd::prelude::*;

verus! {

/// The kind of authenticator that serves the ceremonies. One is chosen when
/// the bridge starts.
#[derive(Debug, Clone, Copy, PartialEq, Eq)]
pub enum Backend {
    /// Tokens that speak CTAP2 over a transport of this machine.
    Ctap2,
    /// The authenticator service of the operating system.
    Native,
    /// The authenticator of a mobile platform.
    Mobile,
}

impl Backend {
    /// Whether the backend asks the application for a PIN or a selection and
    /// can be cancelled. The platform's own services show their own dialogs:
    /// a PIN, a selection or a cancellation sent to them is ignored.
    pub open spec fn interactive(self) -> bool {
        self is Ctap2
    }

    /// Whether a PIN, a selection or a cancellation is handed on to the backend.
    pub fn mediates(&self) -> (interactive: bool)
        ensures
            interactive == self.interactive(),
    {
        match self {
            Backend::Ctap2 => true,
            Backend::Native => false,
            Backend::Mobile => false,
        }
    }
}

/// The selection criteria with which a mobile platform stores the credential
/// as a passkey: where the request gives criteria, a resident key is
/// preferred, whatever was asked; the other criteria stay.
pub open spec fn passkey_selection(
    selection: Option<AuthenticatorSelectionCriteria>,
) -> Option<AuthenticatorSelectionCriteria> {
    match selection {
        Some(criteria) => Some(
            AuthenticatorSelectionCriteria {
                resident_key: Some(ResidentKeyRequirement::Preferred),
                ..criteria
            },
        ),
        None => None,
    }
}

/// Rewrites the selection criteria of a registration for a mobile platform.
pub fn prefer_resident_key(selection: Option<AuthenticatorSelectionCriteria>) -> (rewritten:
    Option<AuthenticatorSelectionCriteria>)
    ensures
        rewritten == passkey_selection(selection),
{
    match selection {
        Some(criteria) => {
            let mut criteria = criteria;
            criteria.resident_key = Some(ResidentKeyRequirement::Preferred);
            Some(criteria)
        },
        None => None,
    }
}

} // verus!
