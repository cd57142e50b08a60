//! The client data of a ceremony: the JSON text that names the ceremony, its
//! challenge and its origin, and the SHA-256 digest of that text, over which
//! the authenticator signs.

use crate::error::Error;
use vstd::prelude::*;

verus! {

/// The two ceremonies.
#[derive(Debug, Clone, Copy, PartialEq, Eq)]
pub enum CeremonyKind {
    Registration,
    Authentication,
}

pub const CREATE_TYPE: &'static str = "webauthn.create";

pub const GET_TYPE: &'static str = "webauthn.get";

impl CeremonyKind {
    /// The text by which the client data names the ceremony.
    pub open spec fn type_text(self) -> Seq<char> {
        match self {
            CeremonyKind::Registration => CREATE_TYPE@,
            CeremonyKind::Authentication => GET_TYPE@,
        }
    }

    /// The text by which the client data names the ceremony.
    pub fn type_str(&self) -> (text: &'static str)
        ensures
            text@ == self.type_text(),
    {
        match self {
            CeremonyKind::Registration => CREATE_TYPE,
            CeremonyKind::Authentication => GET_TYPE,
        }
    }
}

/// What encoding the client data with the given ceremony type, challenge and
/// origin gives: the JSON text, or the message of the failure. The text holds
/// the members `type`, `challenge` (base64url without padding) and `origin`,
/// then an empty token binding, as serde_json writes them in its compact form;
/// the encoding fails where the origin is no URL.
pub uninterp spec fn client_data_encoding(
    type_: Seq<char>,
    challenge: Seq<u8>,
    origin: Seq<char>,
) -> Result<Seq<u8>, Seq<char>>;

/// The SHA-256 digest of `data`.
pub uninterp spec fn sha256_digest(data: Seq<u8>) -> Seq<u8>;

/// The base64url text of `data`, without padding.
pub uninterp spec fn base64url_no_pad(data: Seq<u8>) -> Seq<char>;

/// Writes the client data as JSON. Trusted: the body parses `origin` with
/// `url::Url::parse`, fills a `webauthn_rs_proto::CollectedClientData` (no
/// cross-origin flag, no token binding, no further keys) and hands it to
/// `serde_json::to_vec`. The contract claims that the outcome, the bytes of a
/// success as well as the message of a failure, is a function of the three
/// arguments; it does not say on which arguments the encoding succeeds.
#[verifier::external_body]
fn serialize_client_data(type_: &str, challenge: &Vec<u8>, origin: &str) -> (json: Result<
    Vec<u8>,
    String,
>)
    ensures
        match json {
            Ok(bytes) => client_data_encoding(type_@, challenge@, origin@) == Ok::<
                Seq<u8>,
                Seq<char>,
            >(bytes@),
            Err(message) => client_data_encoding(type_@, challenge@, origin@) == Err::<
                Seq<u8>,
                Seq<char>,
            >(message@),
        },
{
    let origin = match url::Url::parse(origin) {
        Ok(url) => url,
        Err(e) => return Err(e.to_string()),
    };
    let data = webauthn_rs_proto::CollectedClientData {
        type_: type_.to_string(),
        challenge: challenge.clone().into(),
        origin,
        cross_origin: None,
        token_binding: None,
        unknown_keys: Default::default(),
    };
    serde_json::to_vec(&data).map_err(|e| e.to_string())
}

/// Hashes `data`. Trusted: the body calls `openssl::sha::sha256`, which
/// returns the 32 bytes of the SHA-256 digest of its argument.
#[verifier::external_body]
fn sha256(data: &Vec<u8>) -> (digest: [u8; 32])
    ensures
        digest@ == sha256_digest(data@),
{
    openssl::sha::sha256(data.as_slice())
}

/// Encodes `data` as text. Trusted: the body calls `encode` of base64's
/// `URL_SAFE_NO_PAD` engine, which returns the base64url text of its argument
/// without padding.
#[verifier::external_body]
pub(crate) fn base64url_encode(data: &Vec<u8>) -> (text: String)
    ensures
        text@ == base64url_no_pad(data@),
{
    base64::Engine::encode(&base64::prelude::BASE64_URL_SAFE_NO_PAD, data)
}

/// The client data of one ceremony.
#[derive(Debug, Clone, PartialEq, Eq)]
pub struct ClientData {
    /// The JSON text; it is handed to the relying party byte for byte.
    pub json: Vec<u8>,
    /// The SHA-256 digest of `json`; it is handed to the authenticator.
    pub hash: [u8; 32],
}

/// Whether `data` is what collecting the client data of the ceremony `kind`
/// with the given challenge and origin gives: the text of the encoding with
/// its digest where the encoding succeeds, and the message of the encoder as
/// an error where it fails.
pub open spec fn collected(
    kind: CeremonyKind,
    challenge: Seq<u8>,
    origin: Seq<char>,
    data: Result<ClientData, Error>,
) -> bool {
    match client_data_encoding(kind.type_text(), challenge, origin) {
        Ok(json) => data matches Ok(d) && d.json@ == json && d.hash@ == sha256_digest(json),
        Err(message) => data matches Err(Error::SerdeJson(text)) && text@ == message,
    }
}

impl ClientData {
    /// Whether this is the client data of the ceremony `kind` with the given
    /// challenge and origin.
    pub open spec fn describes(self, kind: CeremonyKind, challenge: Seq<u8>, origin: Seq<char>) -> bool {
        &&& client_data_encoding(kind.type_text(), challenge, origin) == Ok::<
            Seq<u8>,
            Seq<char>,
        >(self.json@)
        &&& self.hash@ == sha256_digest(self.json@)
    }

    /// The client data with the text `json`: the text as it is, and its digest.
    pub fn from_json(json: Vec<u8>) -> (data: ClientData)
        ensures
            data.json == json,
            data.hash@ == sha256_digest(json@),
    {
        let hash = sha256(&json);
        ClientData { json, hash }
    }

    /// What `collect` returns for each outcome of the encoder: the client data
    /// with the encoder's text, or the encoder's message as an error.
    pub fn from_encoding(encoded: Result<Vec<u8>, String>) -> (data: Result<ClientData, Error>)
        ensures
            match encoded {
                Ok(json) => data matches Ok(d) && d.json == json && d.hash@ == sha256_digest(json@),
                Err(message) => data == Err::<ClientData, Error>(Error::SerdeJson(message)),
            },
    {
        match encoded {
            Ok(json) => Ok(ClientData::from_json(json)),
            Err(message) => Err(Error::SerdeJson(message)),
        }
    }

    /// The client data of the ceremony `kind` with the given challenge and
    /// origin. The challenge enters as the bytes it is. Where the client data
    /// can be encoded, the result is its text and the digest of that text, the
    /// same every time; where it cannot, the result is the encoder's message.
    pub fn collect(kind: CeremonyKind, challenge: &Vec<u8>, origin: &str) -> (data: Result<
        ClientData,
        Error,
    >)
        ensures
            collected(kind, challenge@, origin@, data),
    {
        ClientData::from_encoding(serialize_client_data(kind.type_str(), challenge, origin))
    }
}

/// The client data is determined by the request: two client data of the same
/// ceremony, challenge and origin have the same text and the same digest.
pub proof fn lemma_client_data_deterministic(
    first: ClientData,
    second: ClientData,
    kind: CeremonyKind,
    challenge: Seq<u8>,
    origin: Seq<char>,
)
    requires
        first.describes(kind, challenge, origin),
        second.describes(kind, challenge, origin),
    ensures
        first.json@ == second.json@,
        first.hash@ == second.hash@,
{
}

} // verus!
