//! The ceremony driver: one registration or one authentication from the
//! request to its single outcome. The command itself is run by the caller's
//! session, which the driver is handed as a function; the driver decides what
//! the session is asked and what becomes of its answer.

use crate::client_data::{client_data_encoding, sha256_digest, CeremonyKind, ClientData};
use crate::ctap2::{RegisterArgs, RegisterResult, SignArgs, SignResult};
use crate::error::Error;
use crate::proto::{
    PublicKeyCredential, PublicKeyCredentialCreationOptions, PublicKeyCredentialRequestOptions,
    RegisterPublicKeyCredential,
};
use crate::translate::{
    authentication_extensions_fit, build_register_args, build_sign_args, decode_register_result,
    decode_sign_result, extensions_fit, register_args, register_response, sign_args,
    sign_result_decodable, sign_result_decoded,
};
use vstd::prelude::*;

verus! {

/// Timeout, in milliseconds, that a ceremony runs with when the caller names none.
pub const DEFAULT_TIMEOUT: u32 = 60_000;

/// The timeout of a ceremony: the caller's, unchanged, or the default.
pub open spec fn timeout_or_default(timeout: Option<u32>) -> u32 {
    match timeout {
        Some(t) => t,
        None => DEFAULT_TIMEOUT,
    }
}

/// The timeout that is handed to the session. The driver keeps no timer of its
/// own: the session enforces what it is handed.
pub fn effective_timeout(timeout: Option<u32>) -> (ms: u64)
    ensures
        ms == timeout_or_default(timeout),
{
    match timeout {
        Some(t) => t as u64,
        None => DEFAULT_TIMEOUT as u64,
    }
}

/// A registration that is ready for the session: the arguments of the command,
/// and the client data that the answer will carry.
#[derive(Debug, Clone, PartialEq, Eq)]
pub struct Registration {
    pub args: RegisterArgs,
    pub client_data: ClientData,
}

/// An authentication that is ready for the session.
#[derive(Debug, Clone, PartialEq, Eq)]
pub struct Authentication {
    pub args: SignArgs,
    pub client_data: ClientData,
}

/// Whether `registration` is the one that the request `options` from `origin`
/// leads to.
pub open spec fn registration_of(
    registration: Registration,
    options: PublicKeyCredentialCreationOptions,
    origin: Seq<char>,
) -> bool {
    &&& registration.client_data.describes(CeremonyKind::Registration, options.challenge@, origin)
    &&& registration.args@ == register_args(options, origin, registration.client_data.hash@)
}

/// Whether `authentication` is the one that the request `options` from
/// `origin` leads to.
pub open spec fn authentication_of(
    authentication: Authentication,
    options: PublicKeyCredentialRequestOptions,
    origin: Seq<char>,
) -> bool {
    &&& authentication.client_data.describes(
        CeremonyKind::Authentication,
        options.challenge@,
        origin,
    )
    &&& authentication.args@ == sign_args(options, origin, authentication.client_data.hash@)
}

/// The registration for given client data: the command is anchored on the
/// digest of exactly that text.
pub fn registration_with(
    options: PublicKeyCredentialCreationOptions,
    origin: &str,
    client_data: ClientData,
) -> (registration: Registration)
    ensures
        registration.client_data == client_data,
        registration.args@ == register_args(options, origin@, client_data.hash@),
{
    let args = build_register_args(options, origin, client_data.hash);
    Registration { args, client_data }
}

/// The authentication for given client data, unless a salt has the wrong size.
pub fn authentication_with(
    options: PublicKeyCredentialRequestOptions,
    origin: &str,
    client_data: ClientData,
) -> (authentication: Result<Authentication, Error>)
    ensures
        match authentication {
            Ok(a) => {
                &&& authentication_extensions_fit(options.extensions)
                &&& a.client_data == client_data
                &&& a.args@ == sign_args(options, origin@, client_data.hash@)
            },
            Err(e) => !authentication_extensions_fit(options.extensions) && e
                == Error::InvalidSalt,
        },
{
    match build_sign_args(options, origin, client_data.hash) {
        Ok(args) => Ok(Authentication { args, client_data }),
        Err(e) => Err(e),
    }
}

/// What preparing a registration gives. Where the client data of the request
/// can be encoded, it is the registration that the request leads to; where
/// they cannot, it is the encoder's message as an error.
pub open spec fn registration_started(
    options: PublicKeyCredentialCreationOptions,
    origin: Seq<char>,
    started: Result<Registration, Error>,
) -> bool {
    match client_data_encoding(CeremonyKind::Registration.type_text(), options.challenge@, origin) {
        Ok(_) => started matches Ok(registration) && registration_of(
            registration,
            options,
            origin,
        ),
        Err(message) => started matches Err(Error::SerdeJson(text)) && text@ == message,
    }
}

/// What preparing an authentication gives. A request with a salt of the wrong
/// size is rejected for the salt, whatever else holds of it. Of a request that
/// is fit the same holds as of a registration.
pub open spec fn authentication_started(
    options: PublicKeyCredentialRequestOptions,
    origin: Seq<char>,
    started: Result<Authentication, Error>,
) -> bool {
    if !authentication_extensions_fit(options.extensions) {
        started == Err::<Authentication, Error>(Error::InvalidSalt)
    } else {
        match client_data_encoding(
            CeremonyKind::Authentication.type_text(),
            options.challenge@,
            origin,
        ) {
            Ok(_) => started matches Ok(authentication) && authentication_of(
                authentication,
                options,
                origin,
            ),
            Err(message) => started matches Err(Error::SerdeJson(text)) && text@ == message,
        }
    }
}

/// What becomes of the session's answer to a registration: an error is the
/// outcome as it came, a result is decoded into the response.
pub open spec fn registration_finished(
    answer: Result<RegisterResult, Error>,
    client_data_json: Seq<u8>,
    outcome: Result<RegisterPublicKeyCredential, Error>,
) -> bool {
    match answer {
        Ok(raw) => outcome matches Ok(response) && response@ == register_response(
            raw,
            client_data_json,
        ),
        Err(e) => outcome == Err::<RegisterPublicKeyCredential, Error>(e),
    }
}

/// What becomes of the session's answer to an authentication: an error is the
/// outcome as it came, a result is decoded into the response, and a result
/// that names no credential is a malformed response.
pub open spec fn authentication_finished(
    answer: Result<SignResult, Error>,
    client_data_json: Seq<u8>,
    outcome: Result<PublicKeyCredential, Error>,
) -> bool {
    match answer {
        Ok(raw) => sign_result_decoded(raw, client_data_json, outcome),
        Err(e) => outcome == Err::<PublicKeyCredential, Error>(e),
    }
}

/// Prepares a registration: collects the client data and builds the command.
/// Succeeds wherever the client data can be encoded.
pub fn start_registration(options: PublicKeyCredentialCreationOptions, origin: &str) -> (started:
    Result<Registration, Error>)
    ensures
        registration_started(options, origin@, started),
{
    match ClientData::collect(CeremonyKind::Registration, &options.challenge, origin) {
        Ok(client_data) => Ok(registration_with(options, origin, client_data)),
        Err(e) => Err(e),
    }
}

/// Prepares an authentication: collects the client data and builds the
/// command. A request with a salt of the wrong size is rejected before
/// anything else is done; a request that is fit succeeds wherever the client
/// data can be encoded.
pub fn start_authentication(options: PublicKeyCredentialRequestOptions, origin: &str) -> (started:
    Result<Authentication, Error>)
    ensures
        authentication_started(options, origin@, started),
{
    if !extensions_fit(&options.extensions) {
        return Err(Error::InvalidSalt);
    }
    match ClientData::collect(CeremonyKind::Authentication, &options.challenge, origin) {
        Ok(client_data) => authentication_with(options, origin, client_data),
        Err(e) => Err(e),
    }
}

/// The outcome of a registration for each answer of the session: an error is
/// handed on as it came, a result is decoded.
pub fn finish_registration(
    answer: Result<RegisterResult, Error>,
    client_data: ClientData,
) -> (outcome: Result<RegisterPublicKeyCredential, Error>)
    ensures
        registration_finished(answer, client_data.json@, outcome),
{
    match answer {
        Ok(raw) => Ok(decode_register_result(raw, client_data.json)),
        Err(e) => Err(e),
    }
}

/// The outcome of an authentication for each answer of the session: an error
/// is handed on as it came, a result that names the credential is decoded, and
/// one that names none is answered with the error of a malformed response.
pub fn finish_authentication(
    answer: Result<SignResult, Error>,
    client_data: ClientData,
) -> (outcome: Result<PublicKeyCredential, Error>)
    ensures
        authentication_finished(answer, client_data.json@, outcome),
{
    match answer {
        Ok(raw) => decode_sign_result(raw, client_data.json),
        Err(e) => Err(e),
    }
}

/// What a registration ends in, given the session `submit`. Where the client
/// data cannot be encoded, the outcome is the encoder's message and the
/// session is not asked. Otherwise the session was asked with exactly the
/// arguments of the request and the timeout, and the outcome is what becomes
/// of its answer: its error as it came, or the decoding of its result.
pub open spec fn registration_outcome<F: FnOnce(RegisterArgs, u64) -> Result<RegisterResult, Error>>(
    submit: F,
    options: PublicKeyCredentialCreationOptions,
    origin: Seq<char>,
    timeout: u64,
    outcome: Result<RegisterPublicKeyCredential, Error>,
) -> bool {
    match client_data_encoding(CeremonyKind::Registration.type_text(), options.challenge@, origin) {
        Ok(json) => exists|args: RegisterArgs, answer: Result<RegisterResult, Error>|
            {
                &&& args@ == register_args(options, origin, sha256_digest(json))
                &&& #[trigger] call_ensures(submit, (args, timeout), answer)
                &&& registration_finished(answer, json, outcome)
            },
        Err(message) => outcome matches Err(Error::SerdeJson(text)) && text@ == message,
    }
}

/// What an authentication ends in, given the session `submit`. A request with
/// a salt of the wrong size ends in `InvalidSalt` and the session is not
/// asked. For a request that is fit the same holds as for a registration.
pub open spec fn authentication_outcome<F: FnOnce(SignArgs, u64) -> Result<SignResult, Error>>(
    submit: F,
    options: PublicKeyCredentialRequestOptions,
    origin: Seq<char>,
    timeout: u64,
    outcome: Result<PublicKeyCredential, Error>,
) -> bool {
    if !authentication_extensions_fit(options.extensions) {
        outcome == Err::<PublicKeyCredential, Error>(Error::InvalidSalt)
    } else {
        match client_data_encoding(
            CeremonyKind::Authentication.type_text(),
            options.challenge@,
            origin,
        ) {
            Ok(json) => exists|args: SignArgs, answer: Result<SignResult, Error>|
                {
                    &&& args@ == sign_args(options, origin, sha256_digest(json))
                    &&& #[trigger] call_ensures(submit, (args, timeout), answer)
                    &&& authentication_finished(answer, json, outcome)
                },
            Err(message) => outcome matches Err(Error::SerdeJson(text)) && text@ == message,
        }
    }
}

/// Runs one registration: builds the command, submits it to the session once,
/// with the timeout as it was given, and decodes what comes back. The session
/// is not asked at all where the command cannot be built. There is one
/// outcome, a response or an error, and nothing in between.
pub fn perform_register<F: FnOnce(RegisterArgs, u64) -> Result<RegisterResult, Error>>(
    submit: F,
    origin: &str,
    options: PublicKeyCredentialCreationOptions,
    timeout: u64,
) -> (outcome: Result<RegisterPublicKeyCredential, Error>)
    requires
        forall|args: RegisterArgs, t: u64| call_requires(submit, (args, t)),
    ensures
        registration_outcome(submit, options, origin@, timeout, outcome),
{
    let registration = match start_registration(options, origin) {
        Ok(registration) => registration,
        Err(e) => { return Err(e); },
    };
    let Registration { args, client_data } = registration;
    let answer = submit(args, timeout);
    finish_registration(answer, client_data)
}

/// Runs one authentication: builds the command, submits it to the session
/// once, with the timeout as it was given, and decodes what comes back. A
/// request with a salt of the wrong size never reaches the session.
pub fn perform_authentication<F: FnOnce(SignArgs, u64) -> Result<SignResult, Error>>(
    submit: F,
    origin: &str,
    options: PublicKeyCredentialRequestOptions,
    timeout: u64,
) -> (outcome: Result<PublicKeyCredential, Error>)
    requires
        forall|args: SignArgs, t: u64| call_requires(submit, (args, t)),
    ensures
        authentication_outcome(submit, options, origin@, timeout, outcome),
{
    let authentication = match start_authentication(options, origin) {
        Ok(authentication) => authentication,
        Err(e) => { return Err(e); },
    };
    let Authentication { args, client_data } = authentication;
    let answer = submit(args, timeout);
    finish_authentication(answer, client_data)
}

/// Registers a credential: `perform_register` with the caller's timeout, or
/// with the default where the caller names none.
pub fn register<F: FnOnce(RegisterArgs, u64) -> Result<RegisterResult, Error>>(
    submit: F,
    origin: &str,
    options: PublicKeyCredentialCreationOptions,
    timeout: Option<u32>,
) -> (outcome: Result<RegisterPublicKeyCredential, Error>)
    requires
        forall|args: RegisterArgs, t: u64| call_requires(submit, (args, t)),
    ensures
        registration_outcome(
            submit,
            options,
            origin@,
            timeout_or_default(timeout) as u64,
            outcome,
        ),
{
    perform_register(submit, origin, options, effective_timeout(timeout))
}

/// Authenticates: `perform_authentication` with the caller's timeout, or with
/// the default where the caller names none.
pub fn authenticate<F: FnOnce(SignArgs, u64) -> Result<SignResult, Error>>(
    submit: F,
    origin: &str,
    options: PublicKeyCredentialRequestOptions,
    timeout: Option<u32>,
) -> (outcome: Result<PublicKeyCredential, Error>)
    requires
        forall|args: SignArgs, t: u64| call_requires(submit, (args, t)),
    ensures
        authentication_outcome(
            submit,
            options,
            origin@,
            timeout_or_default(timeout) as u64,
            outcome,
        ),
{
    perform_authentication(submit, origin, options, effective_timeout(timeout))
}

/// A registration that succeeds answers with the client data of its request
/// and with the attestation object of a result that the session gave for the
/// arguments of the request, whatever else the session did.
pub proof fn lemma_registration_answers_its_request<
    F: FnOnce(RegisterArgs, u64) -> Result<RegisterResult, Error>,
>(
    submit: F,
    options: PublicKeyCredentialCreationOptions,
    origin: Seq<char>,
    timeout: u64,
    outcome: Result<RegisterPublicKeyCredential, Error>,
)
    requires
        registration_outcome(submit, options, origin, timeout, outcome),
        outcome is Ok,
    ensures
        client_data_encoding(CeremonyKind::Registration.type_text(), options.challenge@, origin)
            == Ok::<Seq<u8>, Seq<char>>(outcome->Ok_0@.client_data_json),
        exists|args: RegisterArgs, raw: RegisterResult|
            {
                &&& args@ == register_args(
                    options,
                    origin,
                    sha256_digest(outcome->Ok_0@.client_data_json),
                )
                &&& #[trigger] call_ensures(
                    submit,
                    (args, timeout),
                    Ok::<RegisterResult, Error>(raw),
                )
                &&& outcome->Ok_0@ == register_response(raw, outcome->Ok_0@.client_data_json)
            },
{
    let json = client_data_encoding(
        CeremonyKind::Registration.type_text(),
        options.challenge@,
        origin,
    )->Ok_0;
    let (args, answer) = choose|args: RegisterArgs, answer: Result<RegisterResult, Error>|
        {
            &&& args@ == register_args(options, origin, sha256_digest(json))
            &&& #[trigger] call_ensures(submit, (args, timeout), answer)
            &&& registration_finished(answer, json, outcome)
        };
    assert(call_ensures(submit, (args, timeout), Ok::<RegisterResult, Error>(answer->Ok_0)));
}

/// A registration whose session answers with a result succeeds: where the
/// client data can be encoded and the session gives nothing but results, the
/// outcome is a response, and it carries the client data of the request.
pub proof fn lemma_answered_registration_succeeds<
    F: FnOnce(RegisterArgs, u64) -> Result<RegisterResult, Error>,
>(
    submit: F,
    options: PublicKeyCredentialCreationOptions,
    origin: Seq<char>,
    timeout: u64,
    outcome: Result<RegisterPublicKeyCredential, Error>,
)
    requires
        registration_outcome(submit, options, origin, timeout, outcome),
        client_data_encoding(CeremonyKind::Registration.type_text(), options.challenge@, origin)
            is Ok,
        forall|args: RegisterArgs, answer: Result<RegisterResult, Error>| #[trigger]
            call_ensures(submit, (args, timeout), answer) ==> answer is Ok,
    ensures
        outcome is Ok,
        client_data_encoding(CeremonyKind::Registration.type_text(), options.challenge@, origin)
            == Ok::<Seq<u8>, Seq<char>>(outcome->Ok_0@.client_data_json),
{
}

/// An authentication whose session answers with a result that names the
/// credential succeeds, for a request that is fit and whose client data can
/// be encoded.
pub proof fn lemma_answered_authentication_succeeds<
    F: FnOnce(SignArgs, u64) -> Result<SignResult, Error>,
>(
    submit: F,
    options: PublicKeyCredentialRequestOptions,
    origin: Seq<char>,
    timeout: u64,
    outcome: Result<PublicKeyCredential, Error>,
)
    requires
        authentication_outcome(submit, options, origin, timeout, outcome),
        authentication_extensions_fit(options.extensions),
        client_data_encoding(
            CeremonyKind::Authentication.type_text(),
            options.challenge@,
            origin,
        ) is Ok,
        forall|args: SignArgs, answer: Result<SignResult, Error>| #[trigger]
            call_ensures(submit, (args, timeout), answer) ==> (answer matches Ok(raw)
                && sign_result_decodable(raw)),
    ensures
        outcome is Ok,
        client_data_encoding(
            CeremonyKind::Authentication.type_text(),
            options.challenge@,
            origin,
        ) == Ok::<Seq<u8>, Seq<char>>(outcome->Ok_0@.client_data_json),
{
}

/// The error of the session is the outcome, word for word: where the client
/// data can be encoded and the session answers with the error `error` alone,
/// the registration ends in that error.
pub proof fn lemma_session_error_ends_registration<
    F: FnOnce(RegisterArgs, u64) -> Result<RegisterResult, Error>,
>(
    submit: F,
    options: PublicKeyCredentialCreationOptions,
    origin: Seq<char>,
    timeout: u64,
    outcome: Result<RegisterPublicKeyCredential, Error>,
    error: Error,
)
    requires
        registration_outcome(submit, options, origin, timeout, outcome),
        client_data_encoding(CeremonyKind::Registration.type_text(), options.challenge@, origin)
            is Ok,
        forall|args: RegisterArgs, answer: Result<RegisterResult, Error>| #[trigger]
            call_ensures(submit, (args, timeout), answer) ==> answer == Err::<
                RegisterResult,
                Error,
            >(error),
    ensures
        outcome == Err::<RegisterPublicKeyCredential, Error>(error),
{
}

/// The error of the session is the outcome of an authentication, word for
/// word, for a request that is fit and whose client data can be encoded.
pub proof fn lemma_session_error_ends_authentication<
    F: FnOnce(SignArgs, u64) -> Result<SignResult, Error>,
>(
    submit: F,
    options: PublicKeyCredentialRequestOptions,
    origin: Seq<char>,
    timeout: u64,
    outcome: Result<PublicKeyCredential, Error>,
    error: Error,
)
    requires
        authentication_outcome(submit, options, origin, timeout, outcome),
        authentication_extensions_fit(options.extensions),
        client_data_encoding(
            CeremonyKind::Authentication.type_text(),
            options.challenge@,
            origin,
        ) is Ok,
        forall|args: SignArgs, answer: Result<SignResult, Error>| #[trigger]
            call_ensures(submit, (args, timeout), answer) ==> answer == Err::<SignResult, Error>(
                error,
            ),
    ensures
        outcome == Err::<PublicKeyCredential, Error>(error),
{
}

/// A cancelled registration ends in a cancellation: where the client data can
/// be encoded and the session answers a cancelled command with an error that
/// says so, the outcome of the ceremony is an error that says so too. How soon
/// the session answers is the session's matter.
pub proof fn lemma_cancelled_registration_ends_in_cancellation<
    F: FnOnce(RegisterArgs, u64) -> Result<RegisterResult, Error>,
>(
    submit: F,
    options: PublicKeyCredentialCreationOptions,
    origin: Seq<char>,
    timeout: u64,
    outcome: Result<RegisterPublicKeyCredential, Error>,
)
    requires
        registration_outcome(submit, options, origin, timeout, outcome),
        client_data_encoding(CeremonyKind::Registration.type_text(), options.challenge@, origin)
            is Ok,
        forall|args: RegisterArgs, answer: Result<RegisterResult, Error>| #[trigger]
            call_ensures(submit, (args, timeout), answer) ==> (answer matches Err(e)
                && e.cancelled()),
    ensures
        outcome matches Err(e) && e.cancelled(),
{
}

/// A cancelled authentication ends in a cancellation, under the same
/// conditions as a registration, for a request that is fit.
pub proof fn lemma_cancelled_authentication_ends_in_cancellation<
    F: FnOnce(SignArgs, u64) -> Result<SignResult, Error>,
>(
    submit: F,
    options: PublicKeyCredentialRequestOptions,
    origin: Seq<char>,
    timeout: u64,
    outcome: Result<PublicKeyCredential, Error>,
)
    requires
        authentication_outcome(submit, options, origin, timeout, outcome),
        authentication_extensions_fit(options.extensions),
        client_data_encoding(
            CeremonyKind::Authentication.type_text(),
            options.challenge@,
            origin,
        ) is Ok,
        forall|args: SignArgs, answer: Result<SignResult, Error>| #[trigger]
            call_ensures(submit, (args, timeout), answer) ==> (answer matches Err(e)
                && e.cancelled()),
    ensures
        outcome matches Err(e) && e.cancelled(),
{
}

/// Two authentications of the same request ask the session with the same
/// digest and, where they succeed, answer with the same client data: the
/// digest and the text are fixed by the challenge and the origin.
pub proof fn lemma_authentications_share_client_data(
    first: Authentication,
    second: Authentication,
    options: PublicKeyCredentialRequestOptions,
    origin: Seq<char>,
)
    requires
        authentication_of(first, options, origin),
        authentication_of(second, options, origin),
    ensures
        first.args@ == second.args@,
        first.client_data.json@ == second.client_data.json@,
        first.args@.client_data_hash == sha256_digest(first.client_data.json@),
{
}

} // verus!
