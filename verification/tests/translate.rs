use webauthn_bridge::cose::COSEAlgorithm;
use webauthn_bridge::ctap2;
use webauthn_bridge::error::Error;
use webauthn_bridge::proto;
use webauthn_bridge::translate::{
    build_register_args, build_sign_args, convert_algorithms,
    convert_credential_protection_policy, convert_request_authentication_extensions,
    convert_request_registration_extensions, convert_response_authentication_extensions,
    convert_response_registration_extensions, convert_salt, convert_salts,
    allowed_ids, decode_register_result, decode_sign_result, name_sign_result,
};

fn param(alg: i64) -> proto::PubKeyCredParams {
    proto::PubKeyCredParams { type_: "public-key".to_string(), alg }
}

fn creation_options() -> proto::PublicKeyCredentialCreationOptions {
    proto::PublicKeyCredentialCreationOptions {
        rp: proto::RelyingParty { name: "Example".to_string(), id: "example.com".to_string() },
        user: proto::User {
            id: vec![1, 2, 3],
            name: "alice".to_string(),
            display_name: "Alice".to_string(),
        },
        challenge: (0u8..32).collect(),
        pub_key_cred_params: vec![param(-7), param(-257)],
        timeout: None,
        exclude_credentials: Some(vec![proto::PublicKeyCredentialDescriptor {
            type_: "public-key".to_string(),
            id: vec![9, 9],
            transports: None,
        }]),
        authenticator_selection: None,
        extensions: None,
    }
}

fn request_options(
    extensions: Option<proto::RequestAuthenticationExtensions>,
) -> proto::PublicKeyCredentialRequestOptions {
    proto::PublicKeyCredentialRequestOptions {
        challenge: vec![7; 16],
        timeout: None,
        rp_id: "example.com".to_string(),
        allow_credentials: vec![proto::PublicKeyCredentialDescriptor {
            type_: "public-key".to_string(),
            id: vec![4, 5],
            transports: Some(vec![proto::AuthenticatorTransport::Usb]),
        }],
        user_verification: proto::UserVerificationPolicy::Preferred,
        extensions,
    }
}

fn no_outputs() -> ctap2::AuthenticationExtensionsClientOutputs {
    ctap2::AuthenticationExtensionsClientOutputs {
        app_id: None,
        cred_props: None,
        hmac_create_secret: None,
        hmac_get_secret: None,
    }
}

fn ids(params: &[ctap2::PublicKeyCredentialParameters]) -> Vec<i64> {
    params.iter().map(|p| p.alg.id()).collect()
}

#[test]
fn unknown_algorithms_are_dropped_one_by_one() {
    let converted = convert_algorithms(vec![param(-7), param(0), param(-257), param(9999), param(-8)]);
    assert_eq!(ids(&converted), vec![-7, -257, -8]);
}

#[test]
fn no_known_algorithm_gives_an_empty_list() {
    assert!(convert_algorithms(vec![param(0), param(-9), param(8)]).is_empty());
    assert!(convert_algorithms(Vec::new()).is_empty());
}

#[test]
fn the_same_algorithm_twice_stays_twice() {
    let converted = convert_algorithms(vec![param(-7), param(-7)]);
    assert_eq!(ids(&converted), vec![-7, -7]);
}

#[test]
fn credential_protection_policy_maps_by_name() {
    assert_eq!(
        convert_credential_protection_policy(
            proto::CredentialProtectionPolicy::UserVerificationOptional
        ),
        ctap2::CredentialProtectionPolicy::UserVerificationOptional
    );
    assert_eq!(
        convert_credential_protection_policy(
            proto::CredentialProtectionPolicy::UserVerificationOptionalWithCredentialIDList
        ),
        ctap2::CredentialProtectionPolicy::UserVerificationOptionalWithCredentialIDList
    );
    assert_eq!(
        convert_credential_protection_policy(
            proto::CredentialProtectionPolicy::UserVerificationRequired
        ),
        ctap2::CredentialProtectionPolicy::UserVerificationRequired
    );
}

#[test]
fn registration_extensions_pass_through() {
    let inputs = convert_request_registration_extensions(Some(proto::RequestRegistrationExtensions {
        cred_protect: Some(proto::CredProtect {
            credential_protection_policy:
                proto::CredentialProtectionPolicy::UserVerificationRequired,
            enforce_credential_protection_policy: Some(true),
        }),
        uvm: Some(true),
        cred_props: Some(true),
        min_pin_length: Some(false),
        hmac_create_secret: Some(true),
    }));
    assert_eq!(
        inputs,
        ctap2::AuthenticationExtensionsClientInputs {
            app_id: None,
            cred_props: Some(true),
            credential_protection_policy: Some(
                ctap2::CredentialProtectionPolicy::UserVerificationRequired
            ),
            enforce_credential_protection_policy: Some(true),
            hmac_create_secret: Some(true),
            hmac_get_secret: None,
            min_pin_length: Some(false),
        }
    );
}

#[test]
fn absent_registration_extensions_request_nothing() {
    let nothing = ctap2::AuthenticationExtensionsClientInputs {
        app_id: None,
        cred_props: None,
        credential_protection_policy: None,
        enforce_credential_protection_policy: None,
        hmac_create_secret: None,
        hmac_get_secret: None,
        min_pin_length: None,
    };
    assert_eq!(convert_request_registration_extensions(None), nothing);
    let empty = proto::RequestRegistrationExtensions {
        cred_protect: None,
        uvm: None,
        cred_props: None,
        min_pin_length: None,
        hmac_create_secret: None,
    };
    assert_eq!(convert_request_registration_extensions(Some(empty)), nothing);
    assert_eq!(convert_request_authentication_extensions(None), Ok(nothing));
}

#[test]
fn cred_protect_without_enforcement_leaves_it_unset() {
    let inputs = convert_request_registration_extensions(Some(proto::RequestRegistrationExtensions {
        cred_protect: Some(proto::CredProtect {
            credential_protection_policy:
                proto::CredentialProtectionPolicy::UserVerificationOptional,
            enforce_credential_protection_policy: None,
        }),
        uvm: None,
        cred_props: None,
        min_pin_length: None,
        hmac_create_secret: None,
    }));
    assert_eq!(
        inputs.credential_protection_policy,
        Some(ctap2::CredentialProtectionPolicy::UserVerificationOptional)
    );
    assert_eq!(inputs.enforce_credential_protection_policy, None);
}

#[test]
fn two_salts_of_32_bytes_round_trip() {
    let first: Vec<u8> = (0u8..32).collect();
    let second: Vec<u8> = (100u8..132).collect();
    let inputs = convert_request_authentication_extensions(Some(
        proto::RequestAuthenticationExtensions {
            appid: Some("https://example.com/appid.json".to_string()),
            uvm: Some(true),
            hmac_get_secret: Some(proto::HmacGetSecretInput {
                output1: first.clone(),
                output2: Some(second.clone()),
            }),
        },
    ))
    .expect("both salts fit");
    assert_eq!(inputs.app_id, Some("https://example.com/appid.json".to_string()));
    let salts = inputs.hmac_get_secret.expect("the salts are handed on");
    assert_eq!(salts.salt1.to_vec(), first);
    assert_eq!(salts.salt2.map(|s| s.to_vec()), Some(second));
    assert_eq!(inputs.cred_props, None);
    assert_eq!(inputs.hmac_create_secret, None);
}

#[test]
fn one_salt_alone_round_trips() {
    let salts = convert_salts(proto::HmacGetSecretInput { output1: vec![5; 32], output2: None })
        .expect("the salt fits");
    assert_eq!(salts.salt1, [5u8; 32]);
    assert_eq!(salts.salt2, None);
}

#[test]
fn a_salt_of_the_wrong_length_is_rejected() {
    for length in [0usize, 1, 31, 33, 64] {
        let short_first = proto::RequestAuthenticationExtensions {
            appid: None,
            uvm: None,
            hmac_get_secret: Some(proto::HmacGetSecretInput {
                output1: vec![1; length],
                output2: Some(vec![2; 32]),
            }),
        };
        assert_eq!(
            convert_request_authentication_extensions(Some(short_first)),
            Err(Error::InvalidSalt)
        );
        let short_second = proto::RequestAuthenticationExtensions {
            appid: None,
            uvm: None,
            hmac_get_secret: Some(proto::HmacGetSecretInput {
                output1: vec![1; 32],
                output2: Some(vec![2; length]),
            }),
        };
        assert_eq!(
            build_sign_args(request_options(Some(short_second)), "https://example.com/", [0; 32]),
            Err(Error::InvalidSalt)
        );
        assert_eq!(convert_salt(&vec![3; length]), None);
    }
    assert_eq!(convert_salt(&vec![3; 32]), Some([3u8; 32]));
}

#[test]
fn register_args_name_the_request() {
    let hash = [0xabu8; 32];
    let args = build_register_args(creation_options(), "https://example.com/", hash);
    assert_eq!(args.client_data_hash, hash);
    assert_eq!(args.origin, "https://example.com/");
    assert_eq!(
        args.relying_party,
        ctap2::RelyingParty { id: "example.com".to_string(), name: Some("Example".to_string()) }
    );
    assert_eq!(
        args.user,
        ctap2::PublicKeyCredentialUserEntity {
            id: vec![1, 2, 3],
            name: Some("alice".to_string()),
            display_name: Some("Alice".to_string()),
        }
    );
    assert_eq!(ids(&args.pub_cred_params), vec![-7, -257]);
    assert!(args.exclude_list.is_empty());
    assert_eq!(args.user_verification_req, ctap2::UserVerificationRequirement::Required);
    assert_eq!(args.resident_key_req, proto::ResidentKeyRequirement::Required);
    assert_eq!(args.pin, None);
    assert!(!args.use_ctap1_fallback);
    assert_eq!(args.extensions, convert_request_registration_extensions(None));
}

#[test]
fn sign_args_name_the_request() {
    let hash = [0x11u8; 32];
    let args = build_sign_args(request_options(None), "https://example.com/", hash)
        .expect("no salts, nothing to reject");
    assert_eq!(args.client_data_hash, hash);
    assert_eq!(args.origin, "https://example.com/");
    assert_eq!(args.relying_party_id, "example.com");
    assert_eq!(args.allow_list, vec![vec![4u8, 5]]);
    assert!(args.user_presence_req);
    assert_eq!(args.user_verification_req, ctap2::UserVerificationRequirement::Required);
    assert_eq!(args.pin, None);
    assert!(!args.use_ctap1_fallback);
    assert_eq!(args.extensions.hmac_get_secret, None);
}

#[test]
fn registration_outputs_are_renamed() {
    let outputs = convert_response_registration_extensions(
        ctap2::AuthenticationExtensionsClientOutputs {
            app_id: Some(true),
            cred_props: Some(ctap2::CredentialProperties { rk: true }),
            hmac_create_secret: Some(false),
            hmac_get_secret: Some(ctap2::HMACGetSecretOutput { output1: [1; 32], output2: None }),
        },
    );
    assert_eq!(
        outputs,
        proto::RegistrationExtensionsClientOutputs {
            appid: Some(true),
            cred_props: Some(proto::CredProps { rk: true }),
            hmac_secret: Some(false),
            cred_protect: None,
            min_pin_length: None,
        }
    );
    assert_eq!(
        convert_response_registration_extensions(no_outputs()),
        proto::RegistrationExtensionsClientOutputs {
            appid: None,
            cred_props: None,
            hmac_secret: None,
            cred_protect: None,
            min_pin_length: None,
        }
    );
}

#[test]
fn authentication_outputs_carry_the_secrets() {
    let mut first = [0u8; 32];
    first[31] = 9;
    let outputs = convert_response_authentication_extensions(
        ctap2::AuthenticationExtensionsClientOutputs {
            app_id: Some(false),
            cred_props: None,
            hmac_create_secret: None,
            hmac_get_secret: Some(ctap2::HMACGetSecretOutput {
                output1: first,
                output2: Some([7; 32]),
            }),
        },
    );
    assert_eq!(
        outputs,
        proto::AuthenticationExtensionsClientOutputs {
            appid: Some(false),
            hmac_get_secret: Some(proto::HmacGetSecretOutput {
                output1: first.to_vec(),
                output2: Some(vec![7; 32]),
            }),
        }
    );
    assert_eq!(
        convert_response_authentication_extensions(no_outputs()),
        proto::AuthenticationExtensionsClientOutputs { appid: None, hmac_get_secret: None }
    );
}

#[test]
fn registration_response_has_fixed_transports_and_no_id() {
    let raw = ctap2::RegisterResult { att_obj: vec![0xa3, 1, 2, 3], extensions: no_outputs() };
    let response = decode_register_result(raw, b"{\"type\":\"webauthn.create\"}".to_vec());
    assert_eq!(response.id, "");
    assert!(response.raw_id.is_empty());
    assert_eq!(response.type_, "public-key");
    assert_eq!(response.response.attestation_object, vec![0xa3, 1, 2, 3]);
    assert_eq!(response.response.client_data_json, b"{\"type\":\"webauthn.create\"}".to_vec());
    assert_eq!(
        response.response.transports,
        Some(vec![
            proto::AuthenticatorTransport::Usb,
            proto::AuthenticatorTransport::Nfc,
            proto::AuthenticatorTransport::Internal,
            proto::AuthenticatorTransport::Ble,
        ])
    );
}

#[test]
fn authentication_response_names_the_credential() {
    let raw = ctap2::SignResult {
        assertion: ctap2::Assertion {
            credentials: Some(vec![0xfb, 0xff, 0xfe, 0x10]),
            auth_data: vec![0x58, 0x25, 10, 20, 30],
            signature: vec![0x30, 0x44],
            user: Some(ctap2::PublicKeyCredentialUserEntity {
                id: vec![1, 2, 3],
                name: Some("alice".to_string()),
                display_name: None,
            }),
        },
        extensions: no_outputs(),
    };
    let response = decode_sign_result(raw, b"{}".to_vec()).expect("a credential is named");
    assert_eq!(response.id, "-__-EA");
    assert_eq!(response.raw_id, vec![0xfb, 0xff, 0xfe, 0x10]);
    assert_eq!(response.type_, "public-key");
    assert_eq!(response.response.authenticator_data, vec![0x58, 0x25, 10, 20, 30]);
    assert_eq!(response.response.signature, vec![0x30, 0x44]);
    assert_eq!(response.response.client_data_json, b"{}".to_vec());
    assert_eq!(response.response.user_handle, Some(vec![1, 2, 3]));
}

#[test]
fn authenticator_data_of_any_length_arrive_unchanged() {
    for length in [0usize, 1, 2, 37, 255, 256, 257, 1000, 70_000] {
        let data: Vec<u8> = (0..length).map(|i| (i % 251) as u8).collect();
        let raw = ctap2::SignResult {
            assertion: ctap2::Assertion {
                credentials: Some(vec![1, 2, 3]),
                auth_data: data.clone(),
                signature: Vec::new(),
                user: None,
            },
            extensions: no_outputs(),
        };
        let response = decode_sign_result(raw, Vec::new()).expect("a credential is named");
        assert_eq!(response.id, "AQID");
        assert_eq!(response.response.authenticator_data, data);
        assert_eq!(response.response.user_handle, None);
    }
}

#[test]
fn a_result_without_a_credential_is_a_malformed_response() {
    let raw = ctap2::SignResult {
        assertion: ctap2::Assertion {
            credentials: None,
            auth_data: vec![1; 37],
            signature: vec![2],
            user: None,
        },
        extensions: no_outputs(),
    };
    assert_eq!(decode_sign_result(raw.clone(), Vec::new()), Err(Error::MalformedResponse));
    assert_eq!(
        name_sign_result(raw, Vec::new(), "anything".to_string()),
        Err(Error::MalformedResponse)
    );
}

#[test]
fn the_allow_list_reaches_the_command_in_order() {
    let mut options = request_options(None);
    options.allow_credentials = vec![
        proto::PublicKeyCredentialDescriptor {
            type_: "public-key".to_string(),
            id: vec![9, 9, 9],
            transports: None,
        },
        proto::PublicKeyCredentialDescriptor {
            type_: "public-key".to_string(),
            id: Vec::new(),
            transports: Some(vec![proto::AuthenticatorTransport::Nfc]),
        },
        proto::PublicKeyCredentialDescriptor {
            type_: "public-key".to_string(),
            id: vec![1],
            transports: None,
        },
    ];
    assert_eq!(
        allowed_ids(&options.allow_credentials),
        vec![vec![9u8, 9, 9], Vec::new(), vec![1u8]]
    );
    let args = build_sign_args(options, "https://example.com/", [0; 32]).expect("no salts");
    assert_eq!(args.allow_list, vec![vec![9u8, 9, 9], Vec::new(), vec![1u8]]);
    let mut none = request_options(None);
    none.allow_credentials = Vec::new();
    let args = build_sign_args(none, "https://example.com/", [0; 32]).expect("no salts");
    assert!(args.allow_list.is_empty());
}

#[test]
fn cose_registry_boundaries() {
    for known in [-65535i64, -259, -257, -47, -25, -18, -10, -8, -7, -3, 1, 7, 10, 15, 24, 26, 30, 34] {
        assert_eq!(COSEAlgorithm::try_from(known).map(|a| a.id()), Some(known));
    }
    for unknown in [
        i64::MIN, -65536, -65534, -260, -256, -48, -24, -19, -9, -2, -1, 0, 8, 9, 16, 23, 27, 29,
        35, i64::MAX,
    ] {
        assert_eq!(COSEAlgorithm::try_from(unknown), None);
    }
}
