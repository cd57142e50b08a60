//! The CTAP2 side of a ceremony: the arguments of the two commands that an
//! authenticator session takes, and the results that it gives.

use crate::cose::COSEAlgorithm;
use crate::proto::{opt_text, ResidentKeyRequirement};
use vstd::prelude::*;

verus! {

/// The relying party of a command; CTAP2 asks for the id alone.
#[derive(Debug, Clone, PartialEq, Eq)]
pub struct RelyingParty {
    pub id: String,
    pub name: Option<String>,
}

/// A user account as an authenticator holds it.
#[derive(Debug, Clone, PartialEq, Eq)]
pub struct PublicKeyCredentialUserEntity {
    pub id: Vec<u8>,
    pub name: Option<String>,
    pub display_name: Option<String>,
}

/// One algorithm that the authenticator may create the credential with.
#[derive(Debug, Clone, Copy, PartialEq, Eq)]
pub struct PublicKeyCredentialParameters {
    pub alg: COSEAlgorithm,
}

/// Whether the authenticator is to verify the user.
#[derive(Debug, Clone, Copy, PartialEq, Eq)]
pub enum UserVerificationRequirement {
    Discouraged,
    Preferred,
    Required,
}

/// The level of protection that the authenticator gives a credential.
#[derive(Debug, Clone, Copy, PartialEq, Eq)]
pub enum CredentialProtectionPolicy {
    UserVerificationOptional,
    UserVerificationOptionalWithCredentialIDList,
    UserVerificationRequired,
}

/// The salts of the hmac-secret extension: 32 bytes each.
#[derive(Debug, Clone, Copy, PartialEq, Eq)]
pub struct HMACGetSecretInput {
    pub salt1: [u8; 32],
    pub salt2: Option<[u8; 32]>,
}

/// The extension inputs of a command. A field that is `None` is not requested.
#[derive(Debug, Clone, PartialEq, Eq)]
pub struct AuthenticationExtensionsClientInputs {
    pub app_id: Option<String>,
    pub cred_props: Option<bool>,
    pub credential_protection_policy: Option<CredentialProtectionPolicy>,
    pub enforce_credential_protection_policy: Option<bool>,
    pub hmac_create_secret: Option<bool>,
    pub hmac_get_secret: Option<HMACGetSecretInput>,
    pub min_pin_length: Option<bool>,
}

/// The arguments of the registration command.
#[derive(Debug, Clone, PartialEq, Eq)]
pub struct RegisterArgs {
    pub client_data_hash: [u8; 32],
    pub relying_party: RelyingParty,
    pub origin: String,
    pub user: PublicKeyCredentialUserEntity,
    pub pub_cred_params: Vec<PublicKeyCredentialParameters>,
    pub exclude_list: Vec<Vec<u8>>,
    pub user_verification_req: UserVerificationRequirement,
    pub resident_key_req: ResidentKeyRequirement,
    pub extensions: AuthenticationExtensionsClientInputs,
    pub pin: Option<String>,
    pub use_ctap1_fallback: bool,
}

/// The arguments of the authentication command.
#[derive(Debug, Clone, PartialEq, Eq)]
pub struct SignArgs {
    pub client_data_hash: [u8; 32],
    pub origin: String,
    pub relying_party_id: String,
    pub allow_list: Vec<Vec<u8>>,
    pub user_verification_req: UserVerificationRequirement,
    pub user_presence_req: bool,
    pub extensions: AuthenticationExtensionsClientInputs,
    pub pin: Option<String>,
    pub use_ctap1_fallback: bool,
}

/// The credProps extension output of the authenticator.
#[derive(Debug, Clone, Copy, PartialEq, Eq)]
pub struct CredentialProperties {
    pub rk: bool,
}

/// The secrets of the hmac-secret extension: 32 bytes each.
#[derive(Debug, Clone, Copy, PartialEq, Eq)]
pub struct HMACGetSecretOutput {
    pub output1: [u8; 32],
    pub output2: Option<[u8; 32]>,
}

/// The extension outputs of a command. A field that is `None` is not present.
#[derive(Debug, Clone, Copy, PartialEq, Eq)]
pub struct AuthenticationExtensionsClientOutputs {
    pub app_id: Option<bool>,
    pub cred_props: Option<CredentialProperties>,
    pub hmac_create_secret: Option<bool>,
    pub hmac_get_secret: Option<HMACGetSecretOutput>,
}

/// The result of the registration command. `att_obj` is the attestation
/// object in its CBOR encoding.
#[derive(Debug, Clone, PartialEq, Eq)]
pub struct RegisterResult {
    pub att_obj: Vec<u8>,
    pub extensions: AuthenticationExtensionsClientOutputs,
}

/// The assertion of an authentication. `credentials` is the id of the
/// credential that signed; `auth_data` is the authenticator data, byte for
/// byte as the authenticator signed it.
#[derive(Debug, Clone, PartialEq, Eq)]
pub struct Assertion {
    pub credentials: Option<Vec<u8>>,
    pub auth_data: Vec<u8>,
    pub signature: Vec<u8>,
    pub user: Option<PublicKeyCredentialUserEntity>,
}

/// The result of the authentication command.
#[derive(Debug, Clone, PartialEq, Eq)]
pub struct SignResult {
    pub assertion: Assertion,
    pub extensions: AuthenticationExtensionsClientOutputs,
}

/// What a user account holds.
pub struct PublicKeyCredentialUserEntityView {
    pub id: Seq<u8>,
    pub name: Option<Seq<char>>,
    pub display_name: Option<Seq<char>>,
}

impl View for PublicKeyCredentialUserEntity {
    type V = PublicKeyCredentialUserEntityView;

    open spec fn view(&self) -> PublicKeyCredentialUserEntityView {
        PublicKeyCredentialUserEntityView {
            id: self.id@,
            name: opt_text(self.name),
            display_name: opt_text(self.display_name),
        }
    }
}

/// What the salts of the hmac-secret extension hold.
pub struct HMACGetSecretInputView {
    pub salt1: Seq<u8>,
    pub salt2: Option<Seq<u8>>,
}

impl View for HMACGetSecretInput {
    type V = HMACGetSecretInputView;

    open spec fn view(&self) -> HMACGetSecretInputView {
        HMACGetSecretInputView {
            salt1: self.salt1@,
            salt2: match self.salt2 {
                Some(salt) => Some(salt@),
                None => None,
            },
        }
    }
}

/// What the extension inputs of a command hold.
pub struct AuthenticationExtensionsClientInputsView {
    pub app_id: Option<Seq<char>>,
    pub cred_props: Option<bool>,
    pub credential_protection_policy: Option<CredentialProtectionPolicy>,
    pub enforce_credential_protection_policy: Option<bool>,
    pub hmac_create_secret: Option<bool>,
    pub hmac_get_secret: Option<HMACGetSecretInputView>,
    pub min_pin_length: Option<bool>,
}

impl View for AuthenticationExtensionsClientInputs {
    type V = AuthenticationExtensionsClientInputsView;

    open spec fn view(&self) -> AuthenticationExtensionsClientInputsView {
        AuthenticationExtensionsClientInputsView {
            app_id: opt_text(self.app_id),
            cred_props: self.cred_props,
            credential_protection_policy: self.credential_protection_policy,
            enforce_credential_protection_policy: self.enforce_credential_protection_policy,
            hmac_create_secret: self.hmac_create_secret,
            hmac_get_secret: match self.hmac_get_secret {
                Some(salts) => Some(salts@),
                None => None,
            },
            min_pin_length: self.min_pin_length,
        }
    }
}

/// The extension inputs that request nothing.
pub open spec fn no_extensions() -> AuthenticationExtensionsClientInputsView {
    AuthenticationExtensionsClientInputsView {
        app_id: None,
        cred_props: None,
        credential_protection_policy: None,
        enforce_credential_protection_policy: None,
        hmac_create_secret: None,
        hmac_get_secret: None,
        min_pin_length: None,
    }
}

/// The identifiers of a list of algorithms, in its order.
pub open spec fn algorithm_ids(params: Seq<PublicKeyCredentialParameters>) -> Seq<int> {
    params.map_values(|p: PublicKeyCredentialParameters| p.alg@)
}

/// The ids of a list of credentials, in its order.
pub open spec fn credential_ids(credentials: Seq<Vec<u8>>) -> Seq<Seq<u8>> {
    credentials.map_values(|id: Vec<u8>| id@)
}

/// What the arguments of the registration command hold. The algorithms are
/// given by their identifiers, the credentials of the exclude list by their ids.
pub struct RegisterArgsView {
    pub client_data_hash: Seq<u8>,
    pub relying_party_id: Seq<char>,
    pub relying_party_name: Option<Seq<char>>,
    pub origin: Seq<char>,
    pub user: PublicKeyCredentialUserEntityView,
    pub pub_cred_params: Seq<int>,
    pub exclude_list: Seq<Seq<u8>>,
    pub user_verification_req: UserVerificationRequirement,
    pub resident_key_req: ResidentKeyRequirement,
    pub extensions: AuthenticationExtensionsClientInputsView,
    pub pin: Option<Seq<char>>,
    pub use_ctap1_fallback: bool,
}

impl View for RegisterArgs {
    type V = RegisterArgsView;

    open spec fn view(&self) -> RegisterArgsView {
        RegisterArgsView {
            client_data_hash: self.client_data_hash@,
            relying_party_id: self.relying_party.id@,
            relying_party_name: opt_text(self.relying_party.name),
            origin: self.origin@,
            user: self.user@,
            pub_cred_params: algorithm_ids(self.pub_cred_params@),
            exclude_list: credential_ids(self.exclude_list@),
            user_verification_req: self.user_verification_req,
            resident_key_req: self.resident_key_req,
            extensions: self.extensions@,
            pin: opt_text(self.pin),
            use_ctap1_fallback: self.use_ctap1_fallback,
        }
    }
}

/// What the arguments of the authentication command hold. The credentials of
/// the allow list are given by their ids.
pub struct SignArgsView {
    pub client_data_hash: Seq<u8>,
    pub origin: Seq<char>,
    pub relying_party_id: Seq<char>,
    pub allow_list: Seq<Seq<u8>>,
    pub user_verification_req: UserVerificationRequirement,
    pub user_presence_req: bool,
    pub extensions: AuthenticationExtensionsClientInputsView,
    pub pin: Option<Seq<char>>,
    pub use_ctap1_fallback: bool,
}

impl View for SignArgs {
    type V = SignArgsView;

    open spec fn view(&self) -> SignArgsView {
        SignArgsView {
            client_data_hash: self.client_data_hash@,
            origin: self.origin@,
            relying_party_id: self.relying_party_id@,
            allow_list: credential_ids(self.allow_list@),
            user_verification_req: self.user_verification_req,
            user_presence_req: self.user_presence_req,
            extensions: self.extensions@,
            pin: opt_text(self.pin),
            use_ctap1_fallback: self.use_ctap1_fallback,
        }
    }
}

} // verus!
