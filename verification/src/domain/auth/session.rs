//! The session token: a payload, signed.
//!
//! A token is three texts with dots between them: a header that names the
//! algorithm, the payload, and the signature of the two. The header and the
//! payload are written in URL-safe base64 without padding; the signature is
//! the HMAC with SHA-256 of what stands before its dot, under a secret that
//! only the service knows.

use crate::domain::auth::entity::{ClaimSet, Claims, Profile, UserProfile};
use crate::domain::auth::payload::{claims_json, claims_of, claims_view, decode_claims, encode_claims};
use crate::text::{last_index_of, lemma_last_index_of_cut, rsplit_once};
use base64::engine::general_purpose::URL_SAFE_NO_PAD;
use base64::Engine;
use jsonwebtoken::{Algorithm, DecodingKey, EncodingKey};
use vstd::prelude::*;
use vstd::string::*;
use vstd::utf8::*;

verus! {

/// Whether `c` is of the alphabet of URL-safe base64: a letter, a digit,
/// `-` or `_`.
pub open spec fn is_base64url_char(c: char) -> bool {
    ('A' <= c <= 'Z') || ('a' <= c <= 'z') || ('0' <= c <= '9') || c == '-' || c == '_'
}

/// Whether `text` is made of the alphabet of URL-safe base64.
pub open spec fn is_base64url_text(text: Seq<char>) -> bool {
    forall|i: int| 0 <= i < text.len() ==> is_base64url_char(#[trigger] text[i])
}

/// What `base64` writes for `data` in its URL-safe alphabet without padding.
pub uninterp spec fn base64url(data: Seq<u8>) -> Seq<char>;

/// What `base64` reads out of `text` in its URL-safe alphabet without
/// padding, where it reads anything.
pub uninterp spec fn base64url_decoded(text: Seq<char>) -> Option<Seq<u8>>;

/// The signature that `jsonwebtoken` gives `message` under `secret` with the
/// algorithm `HS256`.
pub uninterp spec fn hs256_signature(secret: Seq<u8>, message: Seq<u8>) -> Seq<char>;

/// The algorithm that the header of `token` names, where `jsonwebtoken` can
/// read the header.
pub uninterp spec fn declared_algorithm(token: Seq<char>) -> Option<SignatureAlgorithm>;

/// The algorithms that the header of a token can name.
#[derive(Debug, Clone, Copy, PartialEq, Eq, Structural)]
pub enum SignatureAlgorithm {
    HS256,
    HS384,
    HS512,
    ES256,
    ES384,
    RS256,
    RS384,
    RS512,
    PS256,
    PS384,
    PS512,
    EdDSA,
}

/// The header of every token that the service signs, as `jsonwebtoken`
/// writes the one it uses by default.
pub const HEADER_JSON: &'static str = "{\"typ\":\"JWT\",\"alg\":\"HS256\"}";

/// The bytes of [`HEADER_JSON`].
pub open spec fn header_json() -> Seq<u8> {
    encode_utf8(HEADER_JSON@)
}

/// A token taken apart.
pub struct TokenParts {
    pub header: Seq<char>,
    pub payload: Seq<char>,
    pub signature: Seq<char>,
}

impl TokenParts {
    /// What the signature is the signature of: the header and the payload
    /// with a dot between them.
    pub open spec fn message(self) -> Seq<char> {
        self.header + seq!['.'] + self.payload
    }

    /// The token that the parts make.
    pub open spec fn joined(self) -> Seq<char> {
        self.message() + seq!['.'] + self.signature
    }
}

/// The parts of `token`: the signature is what follows its last dot, the
/// payload what stands between the last two dots, and the header what stands
/// before them. A text with fewer than two dots has no parts.
pub open spec fn parts_of(token: Seq<char>) -> Option<TokenParts> {
    let last = last_index_of(token, '.');
    if last < 0 {
        None
    } else {
        let message = token.subrange(0, last);
        let first = last_index_of(message, '.');
        if first < 0 {
            None
        } else {
            Some(
                TokenParts {
                    header: message.subrange(0, first),
                    payload: message.subrange(first + 1, message.len() as int),
                    signature: token.subrange(last + 1, token.len() as int),
                },
            )
        }
    }
}

/// Parts without a dot in the payload or the signature are the parts of the
/// token that they make.
pub proof fn lemma_parts_of_joined(parts: TokenParts)
    requires
        !parts.payload.contains('.'),
        !parts.signature.contains('.'),
    ensures
        parts_of(parts.joined()) == Some(parts),
{
    let token = parts.joined();
    let message = parts.message();
    lemma_last_index_of_cut(message, '.', parts.signature);
    lemma_last_index_of_cut(parts.header, '.', parts.payload);
    assert(token.subrange(0, message.len() as int) =~= message);
    assert(token.subrange(message.len() as int + 1, token.len() as int) =~= parts.signature);
    assert(message.subrange(0, parts.header.len() as int) =~= parts.header);
    assert(message.subrange(parts.header.len() as int + 1, message.len() as int) =~= parts.payload);
}

/// A text of the alphabet of URL-safe base64 holds no dot.
pub proof fn lemma_base64url_text_has_no_dot(text: Seq<char>)
    requires
        is_base64url_text(text),
    ensures
        !text.contains('.'),
{
    if text.contains('.') {
        let i = choose|i: int| 0 <= i < text.len() && text[i] == '.';
        assert(is_base64url_char(text[i]));
    }
}

/// Calls `encode` of the engine `URL_SAFE_NO_PAD` of `base64`. What it
/// writes goes by the name [`base64url`] and is made of the URL-safe
/// alphabet.
#[verifier::external_body]
fn encode_part(data: &[u8]) -> (text: String)
    ensures
        text@ == base64url(data@),
        is_base64url_text(text@),
{
    URL_SAFE_NO_PAD.encode(data)
}

/// Calls `decode` of the engine `URL_SAFE_NO_PAD` of `base64`, and gives the
/// bytes where it reads any. What it reads goes by the name
/// [`base64url_decoded`]; out of what `encode` wrote for some bytes it reads
/// those bytes.
#[verifier::external_body]
fn decode_part(text: &str) -> (data: Option<Vec<u8>>)
    ensures
        bytes_of(data) == base64url_decoded(text@),
        forall|written: Seq<u8>| text@ == #[trigger] base64url(written) ==> bytes_of(data) == Some(written),
{
    URL_SAFE_NO_PAD.decode(text).ok()
}

/// Calls `jsonwebtoken::crypto::sign` with a key made of `secret` and the
/// algorithm `HS256`, for which it never fails. The signature goes by the
/// name [`hs256_signature`]; it is a digest in URL-safe base64, so it is made
/// of that alphabet.
#[verifier::external_body]
fn sign_hs256(message: &[u8], secret: &[u8]) -> (signature: String)
    ensures
        signature@ == hs256_signature(secret@, message@),
        is_base64url_text(signature@),
{
    jsonwebtoken::crypto::sign(message, &EncodingKey::from_secret(secret), Algorithm::HS256).unwrap()
}

/// Calls `jsonwebtoken::crypto::verify` with a key made of `secret` and the
/// algorithm `HS256`: it signs `message` as `sign` does and says whether
/// `signature` is what came out.
#[verifier::external_body]
fn verify_hs256(signature: &str, message: &[u8], secret: &[u8]) -> (ok: bool)
    ensures
        ok == (signature@ == hs256_signature(secret@, message@)),
{
    let key = DecodingKey::from_secret(secret);
    matches!(jsonwebtoken::crypto::verify(signature, message, &key, Algorithm::HS256), Ok(true))
}

/// Calls `jsonwebtoken::decode_header` and gives the algorithm that the
/// header names, where the header can be read. It goes by the name
/// [`declared_algorithm`]. The header of a token whose first part is what
/// `base64` writes for [`HEADER_JSON`] names `HS256`.
#[verifier::external_body]
fn header_algorithm(token: &str) -> (algorithm: Option<SignatureAlgorithm>)
    ensures
        algorithm == declared_algorithm(token@),
        parts_of(token@) matches Some(parts) && parts.header == base64url(header_json())
            ==> algorithm == Some(SignatureAlgorithm::HS256),
{
    match jsonwebtoken::decode_header(token).ok()?.alg {
        Algorithm::HS256 => Some(SignatureAlgorithm::HS256),
        Algorithm::HS384 => Some(SignatureAlgorithm::HS384),
        Algorithm::HS512 => Some(SignatureAlgorithm::HS512),
        Algorithm::ES256 => Some(SignatureAlgorithm::ES256),
        Algorithm::ES384 => Some(SignatureAlgorithm::ES384),
        Algorithm::RS256 => Some(SignatureAlgorithm::RS256),
        Algorithm::RS384 => Some(SignatureAlgorithm::RS384),
        Algorithm::RS512 => Some(SignatureAlgorithm::RS512),
        Algorithm::PS256 => Some(SignatureAlgorithm::PS256),
        Algorithm::PS384 => Some(SignatureAlgorithm::PS384),
        Algorithm::PS512 => Some(SignatureAlgorithm::PS512),
        Algorithm::EdDSA => Some(SignatureAlgorithm::EdDSA),
    }
}

/// Bytes that may be missing, as plain values.
pub open spec fn bytes_of(data: Option<Vec<u8>>) -> Option<Seq<u8>> {
    match data {
        Some(data) => Some(data@),
        None => None,
    }
}

/// Whether `token` is what the service signs for `payload` under `secret`:
/// the header of the service, the payload and the signature of the two, the
/// first two in URL-safe base64.
pub open spec fn signs(token: Seq<char>, payload: Seq<u8>, secret: Seq<u8>) -> bool {
    let header = base64url(header_json());
    let body = base64url(payload);
    let message = header + seq!['.'] + body;
    let signature = hs256_signature(secret, encode_utf8(message));
    &&& token == message + seq!['.'] + signature
    &&& is_base64url_text(body)
    &&& is_base64url_text(signature)
}

/// The payload that `token` vouches for under `secret`, if it vouches for
/// any: the token has its three parts, its header names `HS256`, its
/// signature is that of its first two parts under `secret`, and its second
/// part reads as URL-safe base64.
pub open spec fn vouched(token: Seq<char>, secret: Seq<u8>) -> Option<Seq<u8>> {
    match parts_of(token) {
        None => None,
        Some(parts) => {
            if declared_algorithm(token) != Some(SignatureAlgorithm::HS256) {
                None
            } else if parts.signature != hs256_signature(secret, encode_utf8(parts.message())) {
                None
            } else {
                base64url_decoded(parts.payload)
            }
        },
    }
}

/// Signs `payload` under `secret`.
pub fn sign_token(payload: &[u8], secret: &[u8]) -> (token: String)
    ensures
        signs(token@, payload@, secret@),
{
    proof {
        reveal_strlit(".");
    }
    let header = encode_part(HEADER_JSON.as_bytes());
    let body = encode_part(payload);
    let mut message = header;
    message.append(".");
    message.append(body.as_str());
    let signature = sign_hs256(message.as_str().as_bytes(), secret);
    let mut token = message;
    token.append(".");
    token.append(signature.as_str());
    assert("."@ =~= seq!['.']);
    token
}

/// Takes `token` apart at its last two dots: what stands before the last
/// dot, then the payload, then the signature.
fn split_token(token: &str) -> (res: Option<(&str, &str, &str)>)
    ensures
        match res {
            Some((message, payload, signature)) => parts_of(token@) matches Some(parts)
                && message@ == parts.message() && payload@ == parts.payload && signature@
                == parts.signature,
            None => parts_of(token@) is None,
        },
{
    let (message, signature) = match rsplit_once(token, 0x2e) {
        Some(cut) => cut,
        None => return None,
    };
    assert(message@ =~= token@.subrange(0, message@.len() as int));
    assert(signature@ =~= token@.subrange(message@.len() as int + 1, token@.len() as int));
    let (header, payload) = match rsplit_once(message, 0x2e) {
        Some(cut) => cut,
        None => return None,
    };
    assert(header@ =~= message@.subrange(0, header@.len() as int));
    assert(payload@ =~= message@.subrange(header@.len() as int + 1, message@.len() as int));
    Some((message, payload, signature))
}

/// Checks `token` under `secret` and gives the payload that it vouches for,
/// as [`vouched`] rules.
///
/// A token that the service signed for a payload under this secret vouches
/// for that payload.
pub fn verify_token(token: &str, secret: &[u8]) -> (res: Option<Vec<u8>>)
    ensures
        bytes_of(res) == vouched(token@, secret@),
        forall|payload: Seq<u8>| #[trigger] signs(token@, payload, secret@) ==> bytes_of(res) == Some(payload),
{
    let res = match split_token(token) {
        None => None,
        Some((message, payload, signature)) => {
            match header_algorithm(token) {
                Some(SignatureAlgorithm::HS256) => {
                    if verify_hs256(signature, message.as_bytes(), secret) {
                        decode_part(payload)
                    } else {
                        None
                    }
                },
                _ => None,
            }
        },
    };
    proof {
        assert forall|payload: Seq<u8>| #[trigger] signs(token@, payload, secret@) implies bytes_of(res)
            == Some(payload) by {
            let parts = TokenParts {
                header: base64url(header_json()),
                payload: base64url(payload),
                signature: hs256_signature(
                    secret@,
                    encode_utf8(base64url(header_json()) + seq!['.'] + base64url(payload)),
                ),
            };
            lemma_base64url_text_has_no_dot(parts.payload);
            lemma_base64url_text_has_no_dot(parts.signature);
            lemma_parts_of_joined(parts);
        }
    }
    res
}

/// The milliseconds that a session lasts: one hour.
pub const SESSION_MILLIS: u128 = 3_600_000;

/// What the service signs its sessions with, and in whose name.
#[derive(Debug)]
pub struct SessionConfig {
    pub secret: Vec<u8>,
    pub issuer: String,
}

impl Clone for SessionConfig {
    fn clone(&self) -> (res: Self)
        ensures
            res.secret@ == self.secret@,
            res.issuer@ == self.issuer@,
    {
        SessionConfig { secret: self.secret.clone(), issuer: self.issuer.clone() }
    }
}

/// The claims of a session that begins at `now_millis` for the user of
/// `profile`: it ends one hour later, is issued by `issuer`, and is for no
/// audience in particular.
pub open spec fn session_claims(profile: Profile, now_millis: u64, issuer: Seq<char>) -> ClaimSet {
    ClaimSet {
        exp: (now_millis + SESSION_MILLIS) as nat,
        aud: Some(Seq::empty()),
        iss: Some(issuer),
        user: profile,
    }
}

/// The claims of a session that begins at `now_millis`, in milliseconds
/// since the Unix epoch, for the user of `profile`.
pub fn mint_claims(profile: UserProfile, now_millis: u64, issuer: &str) -> (claims: Claims)
    ensures
        claims@ == session_claims(profile@, now_millis, issuer@),
        claims.exp - now_millis == SESSION_MILLIS,
{
    Claims {
        exp: now_millis as u128 + SESSION_MILLIS,
        aud: Some(String::new()),
        iss: Some(issuer.to_owned()),
        user: profile,
    }
}

/// Whether `token` is what the service signs for `claims` under `secret`.
pub open spec fn bears(token: Seq<char>, claims: ClaimSet, secret: Seq<u8>) -> bool {
    signs(token, claims_json(claims), secret)
}

/// Signs `claims` under `secret`.
pub fn sign_claims(claims: &Claims, secret: &[u8]) -> (token: String)
    ensures
        bears(token@, claims@, secret@),
{
    let payload = encode_claims(claims);
    sign_token(payload.as_slice(), secret)
}

/// Signs a session that begins at `now_millis` for the user of `profile`.
pub fn mint(profile: UserProfile, now_millis: u64, config: &SessionConfig) -> (token: String)
    ensures
        bears(token@, session_claims(profile@, now_millis, config.issuer@), config.secret@),
{
    let claims = mint_claims(profile, now_millis, config.issuer.as_str());
    sign_claims(&claims, config.secret.as_slice())
}

/// The session that `token` stands for under `secret` at `now_millis`, if
/// it stands for any: the token vouches for a payload, the payload reads as
/// claims, and the session of the claims has not ended.
pub open spec fn session_of(token: Seq<char>, secret: Seq<u8>, now_millis: u64) -> Option<ClaimSet> {
    match vouched(token, secret) {
        None => None,
        Some(payload) => match claims_of(payload) {
            None => None,
            Some(claims) => if claims.exp > now_millis {
                Some(claims)
            } else {
                None
            },
        },
    }
}

/// Checks `token` under `secret` at `now_millis`, in milliseconds since the
/// Unix epoch, and gives the claims of the session that it stands for, as
/// [`session_of`] rules.
///
/// A token that the service signed for some claims under this secret gives
/// those claims until their session ends.
pub fn verify_session(token: &str, secret: &[u8], now_millis: u64) -> (res: Option<Claims>)
    ensures
        claims_view(res) == session_of(token@, secret@, now_millis),
        forall|claims: ClaimSet| #[trigger]
            bears(token@, claims, secret@) && claims.exp <= u128::MAX && i64::MIN <= claims.user.id
                <= i64::MAX ==> claims_view(res) == if claims.exp > now_millis {
                Some(claims)
            } else {
                None
            },
{
    let res = match verify_token(token, secret) {
        None => None,
        Some(payload) => match decode_claims(payload.as_slice()) {
            None => None,
            Some(claims) => if claims.exp > now_millis as u128 {
                Some(claims)
            } else {
                None
            },
        },
    };
    proof {
        assert forall|claims: ClaimSet| #[trigger]
            bears(token@, claims, secret@) && claims.exp <= u128::MAX && i64::MIN <= claims.user.id
                <= i64::MAX implies claims_view(res) == if claims.exp > now_millis {
            Some(claims)
        } else {
            None
        } by {
            crate::domain::auth::payload::lemma_claims_round_trip(claims);
        }
    }
    res
}

} // verus!
