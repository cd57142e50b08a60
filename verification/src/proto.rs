//! The WebAuthn side of a ceremony: the options that an application asks
//! with, and the credentials that it is answered with.

use vstd::prelude::*;

verus! {

/// The relying party on whose behalf a credential is created.
#[derive(Debug, Clone, PartialEq, Eq)]
pub struct RelyingParty {
    pub name: String,
    pub id: String,
}

/// The user account that a credential is created for.
#[derive(Debug, Clone, PartialEq, Eq)]
pub struct User {
    pub id: Vec<u8>,
    pub name: String,
    pub display_name: String,
}

/// One requested credential algorithm, by its COSE identifier.
#[derive(Debug, Clone, PartialEq, Eq)]
pub struct PubKeyCredParams {
    pub type_: String,
    pub alg: i64,
}

/// How user verification is asked for.
#[derive(Debug, Clone, Copy, PartialEq, Eq)]
pub enum UserVerificationPolicy {
    Required,
    Preferred,
    Discouraged,
}

/// Where the authenticator is attached.
#[derive(Debug, Clone, Copy, PartialEq, Eq)]
pub enum AuthenticatorAttachment {
    Platform,
    CrossPlatform,
}

/// Whether the credential is to be stored on the authenticator.
#[derive(Debug, Clone, Copy, PartialEq, Eq)]
pub enum ResidentKeyRequirement {
    Discouraged,
    Preferred,
    Required,
}

/// The transports over which a credential can be reached.
#[derive(Debug, Clone, Copy, PartialEq, Eq)]
pub enum AuthenticatorTransport {
    Usb,
    Nfc,
    Ble,
    Internal,
    Hybrid,
    Test,
    Unknown,
}

/// The level of protection that a credential is created with.
#[derive(Debug, Clone, Copy, PartialEq, Eq)]
pub enum CredentialProtectionPolicy {
    UserVerificationOptional,
    UserVerificationOptionalWithCredentialIDList,
    UserVerificationRequired,
}

/// The credProtect extension of a registration.
#[derive(Debug, Clone, Copy, PartialEq, Eq)]
pub struct CredProtect {
    pub credential_protection_policy: CredentialProtectionPolicy,
    pub enforce_credential_protection_policy: Option<bool>,
}

/// The extensions that a registration asks for.
#[derive(Debug, Clone, Copy, PartialEq, Eq)]
pub struct RequestRegistrationExtensions {
    pub cred_protect: Option<CredProtect>,
    pub uvm: Option<bool>,
    pub cred_props: Option<bool>,
    pub min_pin_length: Option<bool>,
    pub hmac_create_secret: Option<bool>,
}

/// What the relying party asks of the authenticator that creates a credential.
#[derive(Debug, Clone, Copy, PartialEq, Eq)]
pub struct AuthenticatorSelectionCriteria {
    pub authenticator_attachment: Option<AuthenticatorAttachment>,
    pub resident_key: Option<ResidentKeyRequirement>,
    pub require_resident_key: bool,
    pub user_verification: UserVerificationPolicy,
}

/// A credential that is excluded from a registration or allowed in an
/// authentication.
#[derive(Debug, Clone, PartialEq, Eq)]
pub struct PublicKeyCredentialDescriptor {
    pub type_: String,
    pub id: Vec<u8>,
    pub transports: Option<Vec<AuthenticatorTransport>>,
}

/// The request of a registration ceremony, as far as a ceremony reads it. The
/// challenge is opaque: it is never read as anything but bytes. The timeout of
/// a ceremony is given with the call, not with the options.
#[derive(Debug, Clone, PartialEq, Eq)]
pub struct PublicKeyCredentialCreationOptions {
    pub rp: RelyingParty,
    pub user: User,
    pub challenge: Vec<u8>,
    pub pub_key_cred_params: Vec<PubKeyCredParams>,
    pub timeout: Option<u32>,
    pub exclude_credentials: Option<Vec<PublicKeyCredentialDescriptor>>,
    pub authenticator_selection: Option<AuthenticatorSelectionCriteria>,
    pub extensions: Option<RequestRegistrationExtensions>,
}

/// The salts of the hmac-secret extension, as the application gives them.
#[derive(Debug, Clone, PartialEq, Eq)]
pub struct HmacGetSecretInput {
    pub output1: Vec<u8>,
    pub output2: Option<Vec<u8>>,
}

/// The extensions that an authentication asks for.
#[derive(Debug, Clone, PartialEq, Eq)]
pub struct RequestAuthenticationExtensions {
    pub appid: Option<String>,
    pub uvm: Option<bool>,
    pub hmac_get_secret: Option<HmacGetSecretInput>,
}

/// The request of an authentication ceremony, as far as a ceremony reads it.
#[derive(Debug, Clone, PartialEq, Eq)]
pub struct PublicKeyCredentialRequestOptions {
    pub challenge: Vec<u8>,
    pub timeout: Option<u32>,
    pub rp_id: String,
    pub allow_credentials: Vec<PublicKeyCredentialDescriptor>,
    pub user_verification: UserVerificationPolicy,
    pub extensions: Option<RequestAuthenticationExtensions>,
}

/// The credProps extension output.
#[derive(Debug, Clone, Copy, PartialEq, Eq)]
pub struct CredProps {
    pub rk: bool,
}

/// The extension outputs of a registration.
#[derive(Debug, Clone, Copy, PartialEq, Eq)]
pub struct RegistrationExtensionsClientOutputs {
    pub appid: Option<bool>,
    pub cred_props: Option<CredProps>,
    pub hmac_secret: Option<bool>,
    pub cred_protect: Option<CredentialProtectionPolicy>,
    pub min_pin_length: Option<u32>,
}

/// The authenticator's answer to a registration.
#[derive(Debug, Clone, PartialEq, Eq)]
pub struct AuthenticatorAttestationResponseRaw {
    pub attestation_object: Vec<u8>,
    pub client_data_json: Vec<u8>,
    pub transports: Option<Vec<AuthenticatorTransport>>,
}

/// The credential that a registration ceremony returns.
#[derive(Debug, Clone, PartialEq, Eq)]
pub struct RegisterPublicKeyCredential {
    pub id: String,
    pub raw_id: Vec<u8>,
    pub response: AuthenticatorAttestationResponseRaw,
    pub type_: String,
    pub extensions: RegistrationExtensionsClientOutputs,
}

/// The secrets of the hmac-secret extension, as the application receives them.
#[derive(Debug, Clone, PartialEq, Eq)]
pub struct HmacGetSecretOutput {
    pub output1: Vec<u8>,
    pub output2: Option<Vec<u8>>,
}

/// The extension outputs of an authentication.
#[derive(Debug, Clone, PartialEq, Eq)]
pub struct AuthenticationExtensionsClientOutputs {
    pub appid: Option<bool>,
    pub hmac_get_secret: Option<HmacGetSecretOutput>,
}

/// The authenticator's answer to an authentication.
#[derive(Debug, Clone, PartialEq, Eq)]
pub struct AuthenticatorAssertionResponseRaw {
    pub authenticator_data: Vec<u8>,
    pub client_data_json: Vec<u8>,
    pub signature: Vec<u8>,
    pub user_handle: Option<Vec<u8>>,
}

/// The credential that an authentication ceremony returns.
#[derive(Debug, Clone, PartialEq, Eq)]
pub struct PublicKeyCredential {
    pub id: String,
    pub raw_id: Vec<u8>,
    pub response: AuthenticatorAssertionResponseRaw,
    pub extensions: AuthenticationExtensionsClientOutputs,
    pub type_: String,
}

/// The contents of an optional byte string.
pub open spec fn opt_bytes(bytes: Option<Vec<u8>>) -> Option<Seq<u8>> {
    match bytes {
        Some(b) => Some(b@),
        None => None,
    }
}

/// The contents of an optional text.
pub open spec fn opt_text(text: Option<String>) -> Option<Seq<char>> {
    match text {
        Some(t) => Some(t@),
        None => None,
    }
}

/// The contents of an optional list of transports.
pub open spec fn opt_transports(transports: Option<Vec<AuthenticatorTransport>>) -> Option<
    Seq<AuthenticatorTransport>,
> {
    match transports {
        Some(t) => Some(t@),
        None => None,
    }
}

/// What a registration credential holds.
pub struct RegisterPublicKeyCredentialView {
    pub id: Seq<char>,
    pub raw_id: Seq<u8>,
    pub attestation_object: Seq<u8>,
    pub client_data_json: Seq<u8>,
    pub transports: Option<Seq<AuthenticatorTransport>>,
    pub type_: Seq<char>,
    pub extensions: RegistrationExtensionsClientOutputs,
}

impl View for RegisterPublicKeyCredential {
    type V = RegisterPublicKeyCredentialView;

    open spec fn view(&self) -> RegisterPublicKeyCredentialView {
        RegisterPublicKeyCredentialView {
            id: self.id@,
            raw_id: self.raw_id@,
            attestation_object: self.response.attestation_object@,
            client_data_json: self.response.client_data_json@,
            transports: opt_transports(self.response.transports),
            type_: self.type_@,
            extensions: self.extensions,
        }
    }
}

/// What the hmac-secret output holds.
pub struct HmacGetSecretOutputView {
    pub output1: Seq<u8>,
    pub output2: Option<Seq<u8>>,
}

impl View for HmacGetSecretOutput {
    type V = HmacGetSecretOutputView;

    open spec fn view(&self) -> HmacGetSecretOutputView {
        HmacGetSecretOutputView { output1: self.output1@, output2: opt_bytes(self.output2) }
    }
}

/// What the extension outputs of an authentication hold.
pub struct AuthenticationExtensionsClientOutputsView {
    pub appid: Option<bool>,
    pub hmac_get_secret: Option<HmacGetSecretOutputView>,
}

impl View for AuthenticationExtensionsClientOutputs {
    type V = AuthenticationExtensionsClientOutputsView;

    open spec fn view(&self) -> AuthenticationExtensionsClientOutputsView {
        AuthenticationExtensionsClientOutputsView {
            appid: self.appid,
            hmac_get_secret: match self.hmac_get_secret {
                Some(h) => Some(h@),
                None => None,
            },
        }
    }
}

/// What an authentication credential holds.
pub struct PublicKeyCredentialView {
    pub id: Seq<char>,
    pub raw_id: Seq<u8>,
    pub authenticator_data: Seq<u8>,
    pub client_data_json: Seq<u8>,
    pub signature: Seq<u8>,
    pub user_handle: Option<Seq<u8>>,
    pub extensions: AuthenticationExtensionsClientOutputsView,
    pub type_: Seq<char>,
}

impl View for PublicKeyCredential {
    type V = PublicKeyCredentialView;

    open spec fn view(&self) -> PublicKeyCredentialView {
        PublicKeyCredentialView {
            id: self.id@,
            raw_id: self.raw_id@,
            authenticator_data: self.response.authenticator_data@,
            client_data_json: self.response.client_data_json@,
            signature: self.response.signature@,
            user_handle: opt_bytes(self.response.user_handle),
            extensions: self.extensions@,
            type_: self.type_@,
        }
    }
}

} // verus!
