//! Exchanging an authorization code for an access token, and asking the
//! provider who the user is.
//!
//! Nothing here goes over the network. The library says what is to be sent
//! and what an answer means; sending and waiting is the caller's part.

use crate::domain::auth::entity::TokenError;
use crate::domain::auth::provider::{url_parses, ProviderConfig};
use oauth2::basic::BasicClient;
use oauth2::http::{HeaderMap, StatusCode};
use oauth2::{AuthType, AuthUrl, AuthorizationCode, ClientId, ClientSecret, HttpResponse};
use oauth2::RequestTokenError::{Other, Parse, Request, ServerResponse};
use oauth2::{RedirectUrl, TokenResponse, TokenUrl};
use std::convert::Infallible;
use vstd::prelude::*;
use vstd::string::*;

verus! {

/// The body that `oauth2` composes for the exchange of an authorization
/// code, with the credentials of the client in the body.
pub uninterp spec fn token_request_body(
    client_id: Seq<char>,
    client_secret: Seq<char>,
    redirect_url: Seq<char>,
    code: Seq<char>,
) -> Seq<u8>;

/// What `oauth2` makes of an answer of the token endpoint that names no
/// content type: the access token in it, or why there is none.
pub uninterp spec fn token_reply_outcome(status: u16, body: Seq<u8>) -> Result<Seq<char>, TokenError>;

/// Builds an `oauth2::basic::BasicClient` that sends its credentials in the
/// body, and has the `request` of its `exchange_code` compose the request
/// for `code`; the sender it is given keeps the body and sends nothing. The
/// body goes by the name [`token_request_body`].
#[verifier::external_body]
fn compose_token_request(
    auth_url: &str,
    token_url: &str,
    client_id: &str,
    client_secret: &str,
    redirect_url: &str,
    code: &str,
) -> (body: Vec<u8>)
    requires
        url_parses(auth_url@),
        url_parses(token_url@),
        url_parses(redirect_url@),
    ensures
        body@ == token_request_body(client_id@, client_secret@, redirect_url@, code@),
{
    let id = ClientId::new(client_id.to_string());
    let secret = Some(ClientSecret::new(client_secret.to_string()));
    let auth = AuthUrl::new(auth_url.to_string()).unwrap();
    let token = Some(TokenUrl::new(token_url.to_string()).unwrap());
    let client = BasicClient::new(id, secret, auth, token)
        .set_auth_type(AuthType::RequestBody)
        .set_redirect_uri(RedirectUrl::new(redirect_url.to_string()).unwrap());
    let mut body = Vec::new();
    let _ = client.exchange_code(AuthorizationCode::new(code.to_string())).request(|request| {
        body = request.body;
        Err::<HttpResponse, std::fmt::Error>(std::fmt::Error)
    });
    body
}

/// Has the `request` of an `oauth2::basic::BasicClient` read an answer of
/// the token endpoint: the sender it is given hands over an answer with this
/// status and body and without headers, and sends nothing.
/// `http::StatusCode::from_u16` refuses a status below 100 or above 999.
/// What comes of the answer goes by the name [`token_reply_outcome`].
#[verifier::external_body]
fn read_token_reply(auth_url: &str, token_url: &str, status: u16, body: &[u8]) -> (res: Result<
    String,
    TokenError,
>)
    requires
        url_parses(auth_url@),
        url_parses(token_url@),
        100 <= status <= 999,
    ensures
        token_of(res) == token_reply_outcome(status, body@),
{
    let status_code = StatusCode::from_u16(status).unwrap();
    let reply = HttpResponse { status_code, headers: HeaderMap::new(), body: body.to_vec() };
    let auth = AuthUrl::new(auth_url.into()).unwrap();
    let client = BasicClient::new(ClientId::new(String::new()), None, auth, TokenUrl::new(token_url.into()).ok());
    match client.exchange_code(AuthorizationCode::new(String::new())).request(|_| Ok::<_, Infallible>(reply)) {
        Ok(token) => Ok(token.access_token().secret().clone()),
        Err(e) => Err(match e {
            ServerResponse(_) => TokenError::ServerResponse,
            Request(_) => TokenError::Request,
            Parse(..) => TokenError::Parse,
            Other(_) => TokenError::Other,
        }),
    }
}

/// An access token, or the reason why there is none, as plain values.
pub open spec fn token_of(res: Result<String, TokenError>) -> Result<Seq<char>, TokenError> {
    match res {
        Ok(token) => Ok(token@),
        Err(e) => Err(e),
    }
}

/// A string that may be missing, as plain values.
pub open spec fn string_of(text: Option<String>) -> Option<Seq<char>> {
    match text {
        Some(text) => Some(text@),
        None => None,
    }
}

/// What to send to the token endpoint: a `POST` of `body` to `url`.
#[derive(Debug)]
pub struct TokenRequest {
    pub url: String,
    pub content_type: String,
    pub accept: String,
    pub body: Vec<u8>,
    /// The milliseconds after which to give up.
    pub timeout_millis: u64,
}

/// An answer that came over the network.
#[derive(Debug)]
pub struct HttpReply {
    pub status: u16,
    pub content_type: Option<String>,
    pub body: Vec<u8>,
}

/// No answer came: the request did not get through, or time ran out.
#[derive(Debug, Clone, Copy, PartialEq, Eq, Structural)]
pub struct TransportError;

/// The request that exchanges `code` with the provider of `config`.
pub fn token_request(config: &ProviderConfig, code: &str) -> (request: TokenRequest)
    ensures
        request.url@ == config@.token_url,
        request.content_type@ == "application/x-www-form-urlencoded"@,
        request.accept@ == "application/json"@,
        request.body@ == token_request_body(
            config@.client_id,
            config@.client_secret,
            config@.redirect_url,
            code@,
        ),
        request.timeout_millis == config@.timeout_millis,
{
    let body = compose_token_request(
        config.auth_url(),
        config.token_url(),
        config.client_id(),
        config.client_secret(),
        config.redirect_url(),
        code,
    );
    TokenRequest {
        url: config.token_url().to_owned(),
        content_type: "application/x-www-form-urlencoded".to_owned(),
        accept: "application/json".to_owned(),
        body,
        timeout_millis: config.timeout_millis(),
    }
}

/// The content type that an answer of the token endpoint is to have, in
/// lower case: `application/json`.
pub open spec fn json_type() -> Seq<u8> {
    seq![
        0x61u8, 0x70u8, 0x70u8, 0x6cu8, 0x69u8, 0x63u8, 0x61u8, 0x74u8,
        0x69u8, 0x6fu8, 0x6eu8, 0x2fu8, 0x6au8, 0x73u8, 0x6fu8, 0x6eu8,
    ]
}

/// A letter of the alphabet in lower case, any other byte as it is.
pub open spec fn lower(byte: u8) -> u8 {
    if 0x41 <= byte <= 0x5a {
        (byte + 0x20) as u8
    } else {
        byte
    }
}

/// Whether a content type, given as its bytes, says JSON: it begins with
/// `application/json`, in upper or lower case.
pub open spec fn says_json(content_type: Seq<u8>) -> bool {
    &&& content_type.len() >= json_type().len()
    &&& forall|i: int| 0 <= i < json_type().len() ==> lower(#[trigger] content_type[i]) == json_type()[i]
}

/// Whether a content type says JSON.
pub fn is_json(content_type: &str) -> (b: bool)
    ensures
        b == says_json(content_type.spec_bytes()),
{
    let expected: [u8; 16] = [
        0x61, 0x70, 0x70, 0x6c, 0x69, 0x63, 0x61, 0x74,
        0x69, 0x6f, 0x6e, 0x2f, 0x6a, 0x73, 0x6f, 0x6e,
    ];
    assert(expected@ =~= json_type());
    let bytes = content_type.as_bytes();
    if bytes.len() < 16 {
        return false;
    }
    let mut i: usize = 0;
    while i < 16
        invariant
            i <= 16,
            bytes@.len() >= 16,
            bytes@ == content_type.spec_bytes(),
            expected@ == json_type(),
            forall|j: int| 0 <= j < i ==> lower(#[trigger] bytes@[j]) == json_type()[j],
        decreases 16 - i,
    {
        let byte = bytes[i];
        let lowered = if 0x41 <= byte && byte <= 0x5a {
            byte + 0x20
        } else {
            byte
        };
        if lowered != expected[i] {
            assert(lower(bytes@[i as int]) != json_type()[i as int]);
            return false;
        }
        i += 1;
    }
    true
}

/// What an exchange comes to once an answer is there.
///
/// An answer with a status that no answer can have fails as `Other`, and so
/// does an answer with the status 200 that names a content type other than
/// JSON. Any other answer is read by `oauth2`, which looks at the status and
/// the body alone.
pub open spec fn exchange_outcome(
    status: u16,
    content_type: Option<Seq<char>>,
    body: Seq<u8>,
) -> Result<Seq<char>, TokenError> {
    if !(100 <= status <= 999) {
        Err(TokenError::Other)
    } else if status == 200 && content_type is Some && !says_json(
        vstd::utf8::encode_utf8(content_type->0),
    ) {
        Err(TokenError::Other)
    } else {
        token_reply_outcome(status, body)
    }
}

/// Reads what came of the exchange with the provider of `config`: where no
/// answer came, the exchange failed as `Request`; an answer is read as
/// [`exchange_outcome`] rules.
pub fn access_token(config: &ProviderConfig, exchange: Result<HttpReply, TransportError>) -> (res:
    Result<String, TokenError>)
    ensures
        token_of(res) == match exchange {
            Ok(reply) => exchange_outcome(reply.status, string_of(reply.content_type), reply.body@),
            Err(_) => Err(TokenError::Request),
        },
{
    match exchange {
        Err(_) => Err(TokenError::Request),
        Ok(reply) => {
            if reply.status < 100 || reply.status > 999 {
                return Err(TokenError::Other);
            }
            if reply.status == 200 {
                if let Some(content_type) = &reply.content_type {
                    if !is_json(content_type.as_str()) {
                        return Err(TokenError::Other);
                    }
                }
            }
            read_token_reply(
                config.auth_url(),
                config.token_url(),
                reply.status,
                reply.body.as_slice(),
            )
        },
    }
}

/// Where GitHub says who the user is.
pub const GITHUB_USER_URL: &'static str = "https://api.github.com/user";

/// What to send to learn who the user is: a `GET` of `url` with these
/// headers, in this order.
#[derive(Debug)]
pub struct ProfileRequest {
    pub url: String,
    pub headers: Vec<(String, String)>,
    /// The milliseconds after which to give up.
    pub timeout_millis: u64,
}

/// The headers of a request for the profile, as plain values: the content
/// type, the product that asks, and the access token as a bearer.
pub open spec fn profile_headers(user_agent: Seq<char>, access_token: Seq<char>) -> Seq<
    (Seq<char>, Seq<char>),
> {
    seq![
        ("Content-Type"@, "application/json"@),
        ("User-Agent"@, user_agent),
        ("Authorization"@, "Bearer "@ + access_token),
    ]
}

/// The request that asks the provider of `config` who the bearer of
/// `access_token` is, in the name of the product `user_agent`.
pub fn profile_request(config: &ProviderConfig, user_agent: &str, access_token: &str) -> (request:
    ProfileRequest)
    ensures
        request.url@ == GITHUB_USER_URL@,
        request.headers@.len() == 3,
        forall|i: int|
            0 <= i < 3 ==> (request.headers@[i].0@, request.headers@[i].1@) == profile_headers(
                user_agent@,
                access_token@,
            )[i],
        request.timeout_millis == config@.timeout_millis,
{
    let mut bearer = "Bearer ".to_owned();
    bearer.append(access_token);
    let mut headers: Vec<(String, String)> = Vec::new();
    headers.push(("Content-Type".to_owned(), "application/json".to_owned()));
    headers.push(("User-Agent".to_owned(), user_agent.to_owned()));
    headers.push(("Authorization".to_owned(), bearer));
    ProfileRequest {
        url: GITHUB_USER_URL.to_owned(),
        headers,
        timeout_millis: config.timeout_millis(),
    }
}

} // verus!
