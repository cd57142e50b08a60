//! The translation between the WebAuthn side and the CTAP2 side of a
//! ceremony: from the options of a request to the arguments of a command, and
//! from the result of a command to the credential that answers the request.

use crate::client_data::{base64url_encode, base64url_no_pad};
use crate::cose::{is_cose_algorithm, COSEAlgorithm};
use crate::ctap2::{
    algorithm_ids, credential_ids, no_extensions, Assertion, AuthenticationExtensionsClientInputs,
    AuthenticationExtensionsClientInputsView, AuthenticationExtensionsClientOutputs,
    CredentialProtectionPolicy, HMACGetSecretInput, HMACGetSecretInputView,
    PublicKeyCredentialParameters, PublicKeyCredentialUserEntity,
    PublicKeyCredentialUserEntityView, RegisterArgs, RegisterArgsView, RegisterResult,
    RelyingParty, SignArgs, SignArgsView, SignResult, UserVerificationRequirement,
};
use crate::error::Error;
use crate::proto::{
    opt_bytes, opt_text, AuthenticationExtensionsClientOutputsView, AuthenticatorAssertionResponseRaw,
    AuthenticatorAttestationResponseRaw, AuthenticatorTransport, CredProps, HmacGetSecretInput,
    HmacGetSecretOutput, HmacGetSecretOutputView, PubKeyCredParams, PublicKeyCredential,
    PublicKeyCredentialCreationOptions, PublicKeyCredentialDescriptor,
    PublicKeyCredentialRequestOptions,
    PublicKeyCredentialView, RegisterPublicKeyCredential, RegisterPublicKeyCredentialView,
    RegistrationExtensionsClientOutputs, RequestAuthenticationExtensions,
    RequestRegistrationExtensions, ResidentKeyRequirement,
};
use vstd::prelude::*;
use vstd::string::StringExecFns;

verus! {

/// The type that every credential of a response is of.
pub const PUBLIC_KEY_TYPE: &'static str = "public-key";

/// The number of bytes of a salt of the hmac-secret extension.
pub const SALT_LENGTH: usize = 32;

/// The CTAP2 policy for a WebAuthn credential protection policy: the one of
/// the same name.
pub open spec fn credential_protection_policy(
    cred_protect: crate::proto::CredentialProtectionPolicy,
) -> CredentialProtectionPolicy {
    match cred_protect {
        crate::proto::CredentialProtectionPolicy::UserVerificationOptional =>
            CredentialProtectionPolicy::UserVerificationOptional,
        crate::proto::CredentialProtectionPolicy::UserVerificationOptionalWithCredentialIDList =>
            CredentialProtectionPolicy::UserVerificationOptionalWithCredentialIDList,
        crate::proto::CredentialProtectionPolicy::UserVerificationRequired =>
            CredentialProtectionPolicy::UserVerificationRequired,
    }
}

/// The identifier under which a requested algorithm is handed to the
/// authenticator, if the session layer knows it.
pub open spec fn granted_algorithm(requested: PubKeyCredParams) -> Option<int> {
    if is_cose_algorithm(requested.alg as int) {
        Some(requested.alg as int)
    } else {
        None
    }
}

/// The identifiers that are handed to the authenticator for a list of requested
/// algorithms: those that the session layer knows, in the order of the request.
pub open spec fn granted_algorithms(requested: Seq<PubKeyCredParams>) -> Seq<int> {
    requested.filter_map(|p: PubKeyCredParams| granted_algorithm(p))
}

/// The CTAP2 extension inputs of a registration. credProps, minPinLength and
/// hmacCreateSecret pass through; credProtect gives the policy and whether it
/// is enforced. uvm has no CTAP2 input and is not handed on. No extensions
/// requested on one side are none requested on the other.
pub open spec fn registration_extension_inputs(
    extensions: Option<RequestRegistrationExtensions>,
) -> AuthenticationExtensionsClientInputsView {
    match extensions {
        Some(e) => AuthenticationExtensionsClientInputsView {
            app_id: None,
            cred_props: e.cred_props,
            credential_protection_policy: match e.cred_protect {
                Some(c) => Some(credential_protection_policy(c.credential_protection_policy)),
                None => None,
            },
            enforce_credential_protection_policy: match e.cred_protect {
                Some(c) => c.enforce_credential_protection_policy,
                None => None,
            },
            hmac_create_secret: e.hmac_create_secret,
            hmac_get_secret: None,
            min_pin_length: e.min_pin_length,
        },
        None => no_extensions(),
    }
}

/// Whether both salts have the length that CTAP2 asks for.
pub open spec fn salts_fit(salts: HmacGetSecretInput) -> bool {
    &&& salts.output1@.len() == SALT_LENGTH
    &&& salts.output2 matches Some(second) ==> second@.len() == SALT_LENGTH
}

/// Whether the extensions of an authentication can be handed to the
/// authenticator: the salts of hmacGetSecret, where it is requested, fit.
pub open spec fn authentication_extensions_fit(
    extensions: Option<RequestAuthenticationExtensions>,
) -> bool {
    extensions matches Some(e) ==> (e.hmac_get_secret matches Some(salts) ==> salts_fit(salts))
}

/// The CTAP2 extension inputs of an authentication. appid passes through;
/// hmacGetSecret gives the two salts, byte for byte. uvm has no CTAP2 input and
/// is not handed on.
pub open spec fn authentication_extension_inputs(
    extensions: Option<RequestAuthenticationExtensions>,
) -> AuthenticationExtensionsClientInputsView {
    match extensions {
        Some(e) => AuthenticationExtensionsClientInputsView {
            app_id: opt_text(e.appid),
            cred_props: None,
            credential_protection_policy: None,
            enforce_credential_protection_policy: None,
            hmac_create_secret: None,
            hmac_get_secret: match e.hmac_get_secret {
                Some(salts) => Some(
                    HMACGetSecretInputView {
                        salt1: salts.output1@,
                        salt2: opt_bytes(salts.output2),
                    },
                ),
                None => None,
            },
            min_pin_length: None,
        },
        None => no_extensions(),
    }
}

/// The WebAuthn extension outputs of a registration. appid and credProps pass
/// through, hmacCreateSecret is reported as hmacSecret; credProtect and
/// minPinLength are never reported.
pub open spec fn registration_extension_outputs(
    extensions: AuthenticationExtensionsClientOutputs,
) -> RegistrationExtensionsClientOutputs {
    RegistrationExtensionsClientOutputs {
        appid: extensions.app_id,
        cred_props: match extensions.cred_props {
            Some(c) => Some(CredProps { rk: c.rk }),
            None => None,
        },
        hmac_secret: extensions.hmac_create_secret,
        cred_protect: None,
        min_pin_length: None,
    }
}

/// The WebAuthn extension outputs of an authentication: appid passes through,
/// hmacGetSecret gives the two secrets, byte for byte.
pub open spec fn authentication_extension_outputs(
    extensions: AuthenticationExtensionsClientOutputs,
) -> AuthenticationExtensionsClientOutputsView {
    AuthenticationExtensionsClientOutputsView {
        appid: extensions.app_id,
        hmac_get_secret: match extensions.hmac_get_secret {
            Some(h) => Some(
                HmacGetSecretOutputView {
                    output1: h.output1@,
                    output2: match h.output2 {
                        Some(second) => Some(second@),
                        None => None,
                    },
                },
            ),
            None => None,
        },
    }
}

/// The arguments of the registration command for a request from `origin`
/// whose client data has the digest `client_data_hash`. Relying party and user
/// pass through, each optional CTAP2 field filled. User verification and a
/// resident key are always required, no PIN is given in advance, CTAP1 is
/// never fallen back to, and no credential is excluded.
pub open spec fn register_args(
    options: PublicKeyCredentialCreationOptions,
    origin: Seq<char>,
    client_data_hash: Seq<u8>,
) -> RegisterArgsView {
    RegisterArgsView {
        client_data_hash,
        relying_party_id: options.rp.id@,
        relying_party_name: Some(options.rp.name@),
        origin,
        user: PublicKeyCredentialUserEntityView {
            id: options.user.id@,
            name: Some(options.user.name@),
            display_name: Some(options.user.display_name@),
        },
        pub_cred_params: granted_algorithms(options.pub_key_cred_params@),
        exclude_list: Seq::empty(),
        user_verification_req: UserVerificationRequirement::Required,
        resident_key_req: ResidentKeyRequirement::Required,
        extensions: registration_extension_inputs(options.extensions),
        pin: None,
        use_ctap1_fallback: false,
    }
}

/// The ids of a list of credential descriptors, in its order.
pub open spec fn descriptor_ids(descriptors: Seq<PublicKeyCredentialDescriptor>) -> Seq<Seq<u8>> {
    descriptors.map_values(|d: PublicKeyCredentialDescriptor| d.id@)
}

/// The arguments of the authentication command for a request from `origin`
/// whose client data has the digest `client_data_hash`. User presence and user
/// verification are always required, no PIN is given in advance, CTAP1 is
/// never fallen back to. The allow list names the credentials that the request
/// allows, by their ids and in the order of the request.
pub open spec fn sign_args(
    options: PublicKeyCredentialRequestOptions,
    origin: Seq<char>,
    client_data_hash: Seq<u8>,
) -> SignArgsView {
    SignArgsView {
        client_data_hash,
        origin,
        relying_party_id: options.rp_id@,
        allow_list: descriptor_ids(options.allow_credentials@),
        user_verification_req: UserVerificationRequirement::Required,
        user_presence_req: true,
        extensions: authentication_extension_inputs(options.extensions),
        pin: None,
        use_ctap1_fallback: false,
    }
}

/// The transports that every registration reports, whichever transport the
/// credential was created over.
pub open spec fn reported_transports() -> Seq<AuthenticatorTransport> {
    seq![
        AuthenticatorTransport::Usb,
        AuthenticatorTransport::Nfc,
        AuthenticatorTransport::Internal,
        AuthenticatorTransport::Ble,
    ]
}

/// The credential that answers a registration: the attestation object and the
/// client data as they came, the fixed transports, and an empty id.
pub open spec fn register_response(
    raw: RegisterResult,
    client_data_json: Seq<u8>,
) -> RegisterPublicKeyCredentialView {
    RegisterPublicKeyCredentialView {
        id: Seq::empty(),
        raw_id: Seq::empty(),
        attestation_object: raw.att_obj@,
        client_data_json,
        transports: Some(reported_transports()),
        type_: PUBLIC_KEY_TYPE@,
        extensions: registration_extension_outputs(raw.extensions),
    }
}

/// Whether an authentication result can be decoded: it names the credential
/// that signed.
pub open spec fn sign_result_decodable(raw: SignResult) -> bool {
    raw.assertion.credentials is Some
}

/// The credential that answers an authentication under the name `id`: with
/// the id of the credential that signed, the authenticator data, the signature
/// and the client data as they came, and the user's id as the handle.
pub open spec fn named_sign_response(
    raw: SignResult,
    client_data_json: Seq<u8>,
    id: Seq<char>,
) -> PublicKeyCredentialView {
    PublicKeyCredentialView {
        id,
        raw_id: raw.assertion.credentials->0@,
        authenticator_data: raw.assertion.auth_data@,
        client_data_json,
        signature: raw.assertion.signature@,
        user_handle: match raw.assertion.user {
            Some(user) => Some(user.id@),
            None => None,
        },
        extensions: authentication_extension_outputs(raw.extensions),
        type_: PUBLIC_KEY_TYPE@,
    }
}

/// The credential that answers an authentication: named by the base64url
/// text of the id of the credential that signed.
pub open spec fn sign_response(raw: SignResult, client_data_json: Seq<u8>) -> PublicKeyCredentialView {
    named_sign_response(
        raw,
        client_data_json,
        base64url_no_pad(raw.assertion.credentials->0@),
    )
}

/// Whether `decoded` is what decoding an authentication result gives: the
/// credential that answers the authentication where the result names the
/// credential that signed, and the error of a malformed response where it
/// names none.
pub open spec fn sign_result_decoded(
    raw: SignResult,
    client_data_json: Seq<u8>,
    decoded: Result<PublicKeyCredential, Error>,
) -> bool {
    if sign_result_decodable(raw) {
        decoded matches Ok(response) && response@ == sign_response(raw, client_data_json)
    } else {
        decoded == Err::<PublicKeyCredential, Error>(Error::MalformedResponse)
    }
}

/// The CTAP2 policy of the same name.
pub fn convert_credential_protection_policy(
    cred_protect: crate::proto::CredentialProtectionPolicy,
) -> (policy: CredentialProtectionPolicy)
    ensures
        policy == credential_protection_policy(cred_protect),
{
    match cred_protect {
        crate::proto::CredentialProtectionPolicy::UserVerificationOptional => {
            CredentialProtectionPolicy::UserVerificationOptional
        },
        crate::proto::CredentialProtectionPolicy::UserVerificationOptionalWithCredentialIDList => {
            CredentialProtectionPolicy::UserVerificationOptionalWithCredentialIDList
        },
        crate::proto::CredentialProtectionPolicy::UserVerificationRequired => {
            CredentialProtectionPolicy::UserVerificationRequired
        },
    }
}

/// Converts each requested algorithm on its own. One that the session layer
/// does not know leaves the list; the others stay, in their order.
pub fn convert_algorithms(algorithms: Vec<PubKeyCredParams>) -> (params: Vec<
    PublicKeyCredentialParameters,
>)
    ensures
        algorithm_ids(params@) == granted_algorithms(algorithms@),
{
    let mut params: Vec<PublicKeyCredentialParameters> = Vec::new();
    let mut i: usize = 0;
    assert(algorithms@.take(0).filter_map(|p: PubKeyCredParams| granted_algorithm(p))
        =~= Seq::<int>::empty());
    while i < algorithms.len()
        invariant
            i <= algorithms.len(),
            algorithm_ids(params@) =~= granted_algorithms(algorithms@.take(i as int)),
        decreases algorithms.len() - i,
    {
        match COSEAlgorithm::try_from(algorithms[i].alg) {
            Some(alg) => params.push(PublicKeyCredentialParameters { alg }),
            None => {},
        }
        proof {
            algorithms@.lemma_filter_map_take_succ(
                |p: PubKeyCredParams| granted_algorithm(p),
                i as int,
            );
        }
        i += 1;
    }
    assert(algorithms@.take(i as int) =~= algorithms@);
    params
}

/// The CTAP2 extension inputs of a registration.
pub fn convert_request_registration_extensions(
    extensions: Option<RequestRegistrationExtensions>,
) -> (inputs: AuthenticationExtensionsClientInputs)
    ensures
        inputs@ == registration_extension_inputs(extensions),
{
    match extensions {
        Some(e) => AuthenticationExtensionsClientInputs {
            app_id: None,
            cred_props: e.cred_props,
            credential_protection_policy: match e.cred_protect {
                Some(c) => Some(
                    convert_credential_protection_policy(c.credential_protection_policy),
                ),
                None => None,
            },
            enforce_credential_protection_policy: match e.cred_protect {
                Some(c) => c.enforce_credential_protection_policy,
                None => None,
            },
            hmac_create_secret: e.hmac_create_secret,
            hmac_get_secret: None,
            min_pin_length: e.min_pin_length,
        },
        None => no_inputs(),
    }
}

/// The extension inputs that request nothing.
fn no_inputs() -> (inputs: AuthenticationExtensionsClientInputs)
    ensures
        inputs@ == no_extensions(),
{
    AuthenticationExtensionsClientInputs {
        app_id: None,
        cred_props: None,
        credential_protection_policy: None,
        enforce_credential_protection_policy: None,
        hmac_create_secret: None,
        hmac_get_secret: None,
        min_pin_length: None,
    }
}

/// The salt as the fixed-size array that CTAP2 takes, if it has that size.
pub fn convert_salt(salt: &Vec<u8>) -> (array: Option<[u8; 32]>)
    ensures
        array is Some <==> salt@.len() == SALT_LENGTH,
        array matches Some(a) ==> a@ == salt@,
{
    if salt.len() != SALT_LENGTH {
        return None;
    }
    let mut array: [u8; 32] = [0u8; 32];
    let mut i: usize = 0;
    while i < SALT_LENGTH
        invariant
            i <= SALT_LENGTH,
            salt@.len() == SALT_LENGTH,
            forall|j: int| 0 <= j < i ==> array@[j] == salt@[j],
        decreases SALT_LENGTH - i,
    {
        array[i] = salt[i];
        i += 1;
    }
    Some(array)
}

/// The two salts as CTAP2 takes them, unless one of them has the wrong size.
pub fn convert_salts(salts: HmacGetSecretInput) -> (input: Option<HMACGetSecretInput>)
    ensures
        input is Some <==> salts_fit(salts),
        input matches Some(i) ==> i@.salt1 == salts.output1@ && i@.salt2 == opt_bytes(
            salts.output2,
        ),
{
    let salt1 = match convert_salt(&salts.output1) {
        Some(salt) => salt,
        None => { return None; },
    };
    let salt2 = match &salts.output2 {
        Some(second) => match convert_salt(second) {
            Some(salt) => Some(salt),
            None => { return None; },
        },
        None => None,
    };
    Some(HMACGetSecretInput { salt1, salt2 })
}

/// Whether the extensions of an authentication can be handed to the
/// authenticator.
pub fn extensions_fit(extensions: &Option<RequestAuthenticationExtensions>) -> (fit: bool)
    ensures
        fit == authentication_extensions_fit(*extensions),
{
    match extensions {
        Some(e) => match &e.hmac_get_secret {
            Some(salts) => salts.output1.len() == SALT_LENGTH && match &salts.output2 {
                Some(second) => second.len() == SALT_LENGTH,
                None => true,
            },
            None => true,
        },
        None => true,
    }
}

/// The CTAP2 extension inputs of an authentication. A salt of the wrong size
/// is rejected here, before anything reaches the authenticator.
pub fn convert_request_authentication_extensions(
    extensions: Option<RequestAuthenticationExtensions>,
) -> (inputs: Result<AuthenticationExtensionsClientInputs, Error>)
    ensures
        match inputs {
            Ok(i) => authentication_extensions_fit(extensions) && i@
                == authentication_extension_inputs(extensions),
            Err(e) => !authentication_extensions_fit(extensions) && e == Error::InvalidSalt,
        },
{
    match extensions {
        Some(e) => {
            let hmac_get_secret = match e.hmac_get_secret {
                Some(salts) => match convert_salts(salts) {
                    Some(input) => Some(input),
                    None => { return Err(Error::InvalidSalt); },
                },
                None => None,
            };
            Ok(
                AuthenticationExtensionsClientInputs {
                    app_id: e.appid,
                    cred_props: None,
                    credential_protection_policy: None,
                    enforce_credential_protection_policy: None,
                    hmac_create_secret: None,
                    hmac_get_secret,
                    min_pin_length: None,
                },
            )
        },
        None => Ok(no_inputs()),
    }
}

/// The WebAuthn extension outputs of a registration.
pub fn convert_response_registration_extensions(
    extensions: AuthenticationExtensionsClientOutputs,
) -> (outputs: RegistrationExtensionsClientOutputs)
    ensures
        outputs == registration_extension_outputs(extensions),
{
    RegistrationExtensionsClientOutputs {
        appid: extensions.app_id,
        cred_props: match extensions.cred_props {
            Some(c) => Some(CredProps { rk: c.rk }),
            None => None,
        },
        hmac_secret: extensions.hmac_create_secret,
        cred_protect: None,
        min_pin_length: None,
    }
}

/// The bytes of a secret, as a list.
fn secret_bytes(secret: &[u8; 32]) -> (bytes: Vec<u8>)
    ensures
        bytes@ == secret@,
{
    let mut bytes: Vec<u8> = Vec::new();
    let mut i: usize = 0;
    while i < 32
        invariant
            i <= 32,
            bytes@.len() == i,
            forall|j: int| 0 <= j < i ==> bytes@[j] == secret@[j],
        decreases 32 - i,
    {
        bytes.push(secret[i]);
        i += 1;
    }
    bytes
}

/// The WebAuthn extension outputs of an authentication.
pub fn convert_response_authentication_extensions(
    extensions: AuthenticationExtensionsClientOutputs,
) -> (outputs: crate::proto::AuthenticationExtensionsClientOutputs)
    ensures
        outputs@ == authentication_extension_outputs(extensions),
{
    crate::proto::AuthenticationExtensionsClientOutputs {
        appid: extensions.app_id,
        hmac_get_secret: match extensions.hmac_get_secret {
            Some(h) => Some(
                HmacGetSecretOutput {
                    output1: secret_bytes(&h.output1),
                    output2: match h.output2 {
                        Some(second) => Some(secret_bytes(&second)),
                        None => None,
                    },
                },
            ),
            None => None,
        },
    }
}

/// Builds the arguments of the registration command. Total: an algorithm that
/// the session layer does not know is left out and fails nothing.
pub fn build_register_args(
    options: PublicKeyCredentialCreationOptions,
    origin: &str,
    client_data_hash: [u8; 32],
) -> (args: RegisterArgs)
    ensures
        args@ == register_args(options, origin@, client_data_hash@),
{
    let exclude_list: Vec<Vec<u8>> = Vec::new();
    assert(credential_ids(exclude_list@) =~= Seq::<Seq<u8>>::empty());
    RegisterArgs {
        pin: None,
        client_data_hash,
        origin: String::from_str(origin),
        user_verification_req: UserVerificationRequirement::Required,
        use_ctap1_fallback: false,
        relying_party: RelyingParty { id: options.rp.id, name: Some(options.rp.name) },
        user: PublicKeyCredentialUserEntity {
            id: options.user.id,
            name: Some(options.user.name),
            display_name: Some(options.user.display_name),
        },
        exclude_list,
        resident_key_req: ResidentKeyRequirement::Required,
        extensions: convert_request_registration_extensions(options.extensions),
        pub_cred_params: convert_algorithms(options.pub_key_cred_params),
    }
}

/// A copy of a byte string.
fn copy_bytes(bytes: &Vec<u8>) -> (copy: Vec<u8>)
    ensures
        copy@ == bytes@,
{
    let mut copy: Vec<u8> = Vec::new();
    let mut i: usize = 0;
    while i < bytes.len()
        invariant
            i <= bytes.len(),
            copy@ == bytes@.take(i as int),
        decreases bytes.len() - i,
    {
        copy.push(bytes[i]);
        i += 1;
    }
    copy
}

/// The ids of the credentials that a request allows, in the order of the
/// request.
pub fn allowed_ids(descriptors: &Vec<PublicKeyCredentialDescriptor>) -> (ids: Vec<Vec<u8>>)
    ensures
        credential_ids(ids@) == descriptor_ids(descriptors@),
{
    let mut ids: Vec<Vec<u8>> = Vec::new();
    let mut i: usize = 0;
    while i < descriptors.len()
        invariant
            i <= descriptors.len(),
            credential_ids(ids@) =~= descriptor_ids(descriptors@.take(i as int)),
        decreases descriptors.len() - i,
    {
        let id = copy_bytes(&descriptors[i].id);
        ids.push(id);
        assert(descriptor_ids(descriptors@.take(i + 1)) =~= descriptor_ids(
            descriptors@.take(i as int),
        ).push(descriptors@[i as int].id@));
        i += 1;
    }
    ids
}

/// Builds the arguments of the authentication command, or rejects the request
/// for a salt of the wrong size.
pub fn build_sign_args(
    options: PublicKeyCredentialRequestOptions,
    origin: &str,
    client_data_hash: [u8; 32],
) -> (args: Result<SignArgs, Error>)
    ensures
        match args {
            Ok(a) => authentication_extensions_fit(options.extensions) && a@ == sign_args(
                options,
                origin@,
                client_data_hash@,
            ),
            Err(e) => !authentication_extensions_fit(options.extensions) && e
                == Error::InvalidSalt,
        },
{
    let extensions = match convert_request_authentication_extensions(options.extensions) {
        Ok(inputs) => inputs,
        Err(e) => { return Err(e); },
    };
    let allow_list = allowed_ids(&options.allow_credentials);
    Ok(
        SignArgs {
            pin: None,
            relying_party_id: options.rp_id,
            client_data_hash,
            origin: String::from_str(origin),
            user_presence_req: true,
            user_verification_req: UserVerificationRequirement::Required,
            use_ctap1_fallback: false,
            allow_list,
            extensions,
        },
    )
}

/// The transports that every registration reports.
fn transports() -> (list: Vec<AuthenticatorTransport>)
    ensures
        list@ == reported_transports(),
{
    let mut list: Vec<AuthenticatorTransport> = Vec::new();
    list.push(AuthenticatorTransport::Usb);
    list.push(AuthenticatorTransport::Nfc);
    list.push(AuthenticatorTransport::Internal);
    list.push(AuthenticatorTransport::Ble);
    list
}

/// Builds the credential that answers a registration from the result of the
/// command and the client data that the command was anchored on.
pub fn decode_register_result(raw: RegisterResult, client_data_json: Vec<u8>) -> (response:
    RegisterPublicKeyCredential)
    ensures
        response@ == register_response(raw, client_data_json@),
{
    RegisterPublicKeyCredential {
        extensions: convert_response_registration_extensions(raw.extensions),
        response: AuthenticatorAttestationResponseRaw {
            attestation_object: raw.att_obj,
            client_data_json,
            transports: Some(transports()),
        },
        id: String::new(),
        raw_id: Vec::new(),
        type_: String::from_str(PUBLIC_KEY_TYPE),
    }
}

/// Builds the credential that answers an authentication under a given name.
/// A result that names no credential gives the error of a malformed response.
pub fn name_sign_result(raw: SignResult, client_data_json: Vec<u8>, id: String) -> (response:
    Result<PublicKeyCredential, Error>)
    ensures
        if sign_result_decodable(raw) {
            response matches Ok(r) && r@ == named_sign_response(raw, client_data_json@, id@)
        } else {
            response == Err::<PublicKeyCredential, Error>(Error::MalformedResponse)
        },
{
    let Assertion { credentials, auth_data, signature, user } = raw.assertion;
    let raw_id = match credentials {
        Some(id) => id,
        None => { return Err(Error::MalformedResponse); },
    };
    Ok(
        PublicKeyCredential {
            id,
            raw_id,
            type_: String::from_str(PUBLIC_KEY_TYPE),
            response: AuthenticatorAssertionResponseRaw {
                client_data_json,
                authenticator_data: auth_data,
                signature,
                user_handle: match user {
                    Some(handle) => Some(handle.id),
                    None => None,
                },
            },
            extensions: convert_response_authentication_extensions(raw.extensions),
        },
    )
}

/// Builds the credential that answers an authentication from the result of the
/// command and the client data that the command was anchored on. The
/// authenticator data reach the response unchanged, whatever their length. A
/// result that names no credential gives the error of a malformed response.
pub fn decode_sign_result(raw: SignResult, client_data_json: Vec<u8>) -> (response: Result<
    PublicKeyCredential,
    Error,
>)
    ensures
        sign_result_decoded(raw, client_data_json@, response),
{
    let id = match &raw.assertion.credentials {
        Some(raw_id) => base64url_encode(raw_id),
        None => { return Err(Error::MalformedResponse); },
    };
    name_sign_result(raw, client_data_json, id)
}

/// The algorithms that are handed to the authenticator are algorithms of the
/// request: each is known to the session layer and was asked for, and no more
/// are handed on than were asked for.
pub proof fn lemma_granted_algorithms_are_requested(requested: Seq<PubKeyCredParams>)
    ensures
        granted_algorithms(requested).len() <= requested.len(),
        forall|k: int|
            0 <= k < granted_algorithms(requested).len() ==> {
                &&& is_cose_algorithm(#[trigger] granted_algorithms(requested)[k])
                &&& exists|i: int|
                    0 <= i < requested.len() && (#[trigger] requested[i]).alg
                        == granted_algorithms(requested)[k]
            },
    decreases requested.len(),
{
    if requested.len() > 0 {
        let rest = requested.drop_last();
        lemma_granted_algorithms_are_requested(rest);
        assert forall|k: int| 0 <= k < granted_algorithms(requested).len() implies {
            &&& is_cose_algorithm(#[trigger] granted_algorithms(requested)[k])
            &&& exists|i: int|
                0 <= i < requested.len() && (#[trigger] requested[i]).alg == granted_algorithms(
                    requested,
                )[k]
        } by {
            if k < granted_algorithms(rest).len() {
                let i = choose|i: int|
                    0 <= i < rest.len() && (#[trigger] rest[i]).alg == granted_algorithms(rest)[k];
                assert(requested[i] == rest[i]);
            } else {
                assert(requested[requested.len() - 1].alg == granted_algorithms(requested)[k]);
            }
        }
    }
}

/// Where the session layer knows every requested algorithm, all of them are
/// handed to the authenticator, in the order of the request.
pub proof fn lemma_known_algorithms_all_granted(requested: Seq<PubKeyCredParams>)
    requires
        forall|i: int| 0 <= i < requested.len() ==> is_cose_algorithm(
            (#[trigger] requested[i]).alg as int,
        ),
    ensures
        granted_algorithms(requested) == requested.map_values(|p: PubKeyCredParams| p.alg as int),
    decreases requested.len(),
{
    if requested.len() > 0 {
        let rest = requested.drop_last();
        assert forall|i: int| 0 <= i < rest.len() implies is_cose_algorithm(
            (#[trigger] rest[i]).alg as int,
        ) by {
            assert(rest[i] == requested[i]);
        }
        lemma_known_algorithms_all_granted(rest);
    }
}

/// What a registration keeps of its request: the command names the relying
/// party and the user of the request and asks for the algorithms of the
/// request that the session layer knows; the response carries the client data
/// and the attestation object byte for byte.
pub proof fn lemma_registration_round_trip(
    options: PublicKeyCredentialCreationOptions,
    origin: Seq<char>,
    client_data_hash: Seq<u8>,
    raw: RegisterResult,
    client_data_json: Seq<u8>,
)
    ensures
        register_args(options, origin, client_data_hash).relying_party_id == options.rp.id@,
        register_args(options, origin, client_data_hash).relying_party_name == Some(
            options.rp.name@,
        ),
        register_args(options, origin, client_data_hash).user.id == options.user.id@,
        register_args(options, origin, client_data_hash).user.name == Some(options.user.name@),
        register_args(options, origin, client_data_hash).user.display_name == Some(
            options.user.display_name@,
        ),
        register_args(options, origin, client_data_hash).origin == origin,
        register_args(options, origin, client_data_hash).client_data_hash == client_data_hash,
        register_args(options, origin, client_data_hash).pub_cred_params == granted_algorithms(
            options.pub_key_cred_params@,
        ),
        register_response(raw, client_data_json).client_data_json == client_data_json,
        register_response(raw, client_data_json).attestation_object == raw.att_obj@,
{
}

/// The salts of hmacGetSecret reach the authenticator unchanged: where both
/// have 32 bytes the request is accepted and the command holds the same two
/// byte strings.
pub proof fn lemma_salts_round_trip(
    extensions: RequestAuthenticationExtensions,
    salts: HmacGetSecretInput,
)
    requires
        extensions.hmac_get_secret == Some(salts),
        salts.output1@.len() == SALT_LENGTH,
        salts.output2 matches Some(second) && second@.len() == SALT_LENGTH,
    ensures
        authentication_extensions_fit(Some(extensions)),
        authentication_extension_inputs(Some(extensions)).hmac_get_secret matches Some(input)
            && input.salt1 == salts.output1@ && input.salt2 == Some(salts.output2->0@),
{
}

/// A salt that has not 32 bytes makes the request unfit, so that the
/// authentication is rejected.
pub proof fn lemma_wrong_salt_is_rejected(
    extensions: RequestAuthenticationExtensions,
    salts: HmacGetSecretInput,
)
    requires
        extensions.hmac_get_secret == Some(salts),
        salts.output1@.len() != SALT_LENGTH || (salts.output2 matches Some(second)
            && second@.len() != SALT_LENGTH),
    ensures
        !authentication_extensions_fit(Some(extensions)),
{
}

} // verus!
