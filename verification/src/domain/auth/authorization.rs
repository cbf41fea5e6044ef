//! Sending the user to the provider.
//!
//! The service keeps nothing between sending the user away and seeing them
//! again: the address that is handed out carries a fresh anti-forgery state
//! and the challenge of a fresh proof key, and both go back to the caller.

use crate::domain::auth::entity::OAuthProvider;
use crate::domain::auth::provider::{
    url_parses, ConfigView, Environment, ProviderConfig, Registry, RegistryError,
};
use vstd::prelude::*;
use vstd::string::*;
use vstd::utf8::*;

verus! {

/// Whether `byte` is a letter or a digit.
pub open spec fn is_alphanumeric(byte: u8) -> bool {
    (0x30 <= byte <= 0x39) || (0x41 <= byte <= 0x5a) || (0x61 <= byte <= 0x7a)
}

/// Whether `byte` is of the alphabet of URL-safe base64: a letter, a digit,
/// `-` or `_`.
pub open spec fn is_url_safe(byte: u8) -> bool {
    is_alphanumeric(byte) || byte == 0x2d || byte == 0x5f
}

/// Whether `byte` is one that an address may hold as it is: a letter, a
/// digit, `-`, `.`, `_` or `~`.
pub open spec fn is_unreserved(byte: u8) -> bool {
    is_url_safe(byte) || byte == 0x2e || byte == 0x7e
}

/// Fewest bytes a code verifier may have.
pub const VERIFIER_MIN_LENGTH: usize = 43;

/// Most bytes a code verifier may have.
pub const VERIFIER_MAX_LENGTH: usize = 128;

/// Whether `bytes` can be a code verifier: 43 to 128 unreserved bytes.
pub open spec fn is_verifier(bytes: Seq<u8>) -> bool {
    &&& VERIFIER_MIN_LENGTH <= bytes.len() <= VERIFIER_MAX_LENGTH
    &&& forall|i: int| 0 <= i < bytes.len() ==> is_unreserved(#[trigger] bytes[i])
}

/// Whether `bytes` can be a fresh anti-forgery state: what URL-safe base64
/// without padding makes of 32 bytes, which is 43 bytes of its alphabet.
pub open spec fn is_state(bytes: Seq<u8>) -> bool {
    &&& bytes.len() == 43
    &&& forall|i: int| 0 <= i < bytes.len() ==> is_url_safe(#[trigger] bytes[i])
}

/// The challenge that `oauth2` derives from a code verifier by the method
/// `S256`: the SHA-256 digest of the verifier in URL-safe base64.
pub uninterp spec fn s256_challenge(verifier: Seq<char>) -> Seq<char>;

/// The address that `oauth2` composes for an authorization request with
/// these values.
pub uninterp spec fn authorization_url_text(
    auth_url: Seq<char>,
    client_id: Seq<char>,
    redirect_url: Seq<char>,
    scopes: Seq<Seq<char>>,
    state: Seq<char>,
    verifier: Seq<char>,
) -> Seq<char>;

/// Calls `oauth2::CsrfToken::new_random_len` for 32 random bytes. Which
/// bytes come is left open; the token is their URL-safe base64 without
/// padding, so it has 43 bytes of that alphabet.
#[verifier::external_body]
fn fresh_state() -> (state: String)
    ensures
        is_state(encode_utf8(state@)),
{
    oauth2::CsrfToken::new_random_len(32).secret().clone()
}

/// Calls `oauth2::PkceCodeChallenge::new_random_sha256` and gives the
/// verifier and then the challenge. Which verifier comes is left open; it is
/// the URL-safe base64 of 32 random bytes, and the challenge is derived from
/// it as by `from_code_verifier_sha256`.
#[verifier::external_body]
fn fresh_proof_key() -> (pair: (String, String))
    ensures
        is_verifier(encode_utf8(pair.0@)),
        pair.1@ == s256_challenge(pair.0@),
{
    let (challenge, verifier) = oauth2::PkceCodeChallenge::new_random_sha256();
    (verifier.secret().clone(), challenge.as_str().to_string())
}

/// Calls `oauth2::PkceCodeChallenge::from_code_verifier_sha256`, which
/// panics unless the verifier has 43 to 128 bytes. The challenge goes by the
/// name [`s256_challenge`].
#[verifier::external_body]
fn challenge_for(verifier: &str) -> (challenge: String)
    requires
        is_verifier(verifier.spec_bytes()),
    ensures
        challenge@ == s256_challenge(verifier@),
{
    let verifier = oauth2::PkceCodeVerifier::new(verifier.to_string());
    oauth2::PkceCodeChallenge::from_code_verifier_sha256(&verifier).as_str().to_string()
}

/// Builds an `oauth2::basic::BasicClient` from the values given and has its
/// `authorize_url` compose the address of a request with this state, these
/// scopes and the challenge of this verifier. The address goes by the name
/// [`authorization_url_text`]; it begins with the scheme of `auth_url`, so it
/// is not empty.
#[verifier::external_body]
fn compose_url(
    auth_url: &str,
    client_id: &str,
    redirect_url: &str,
    scopes: &Vec<String>,
    state: &str,
    verifier: &str,
) -> (url: String)
    requires
        url_parses(auth_url@),
        url_parses(redirect_url@),
        is_verifier(verifier.spec_bytes()),
    ensures
        url@ == authorization_url_text(
            auth_url@,
            client_id@,
            redirect_url@,
            Seq::new(scopes@.len(), |i: int| scopes@[i]@),
            state@,
            verifier@,
        ),
        url@.len() > 0,
{
    let verifier = oauth2::PkceCodeVerifier::new(verifier.to_string());
    let client = oauth2::basic::BasicClient::new(
        oauth2::ClientId::new(client_id.to_string()),
        None,
        oauth2::AuthUrl::new(auth_url.to_string()).unwrap(),
        None,
    ).set_redirect_uri(oauth2::RedirectUrl::new(redirect_url.to_string()).unwrap());
    client.authorize_url(|| oauth2::CsrfToken::new(state.to_string()))
        .add_scopes(scopes.iter().map(|scope| oauth2::Scope::new(scope.clone())))
        .set_pkce_challenge(oauth2::PkceCodeChallenge::from_code_verifier_sha256(&verifier))
        .url().0.to_string()
}

/// A proof key for the code exchange: a verifier, which stays with whoever
/// began the sign-in, and the challenge derived from it, which goes to the
/// provider.
#[derive(Debug)]
pub struct PkceChallenge {
    verifier: String,
    challenge: String,
}

impl PkceChallenge {
    #[verifier::type_invariant]
    spec fn inv(self) -> bool {
        is_verifier(encode_utf8(self.verifier@)) && self.challenge@ == s256_challenge(self.verifier@)
    }

    /// The verifier as plain values.
    pub closed spec fn verifier_text(self) -> Seq<char> {
        self.verifier@
    }

    /// The challenge as plain values.
    pub closed spec fn challenge_text(self) -> Seq<char> {
        self.challenge@
    }

    /// A proof key with a fresh random verifier.
    pub fn new_random() -> (key: Self)
        ensures
            is_verifier(encode_utf8(key.verifier_text())),
            key.challenge_text() == s256_challenge(key.verifier_text()),
    {
        let (verifier, challenge) = fresh_proof_key();
        PkceChallenge { verifier, challenge }
    }

    /// The proof key with this verifier, if it can be one: it has 43 to 128
    /// bytes, each a letter, a digit, `-`, `.`, `_` or `~`.
    pub fn from_verifier(verifier: String) -> (res: Option<Self>)
        ensures
            res is Some <==> is_verifier(encode_utf8(verifier@)),
            res matches Some(key) ==> key.verifier_text() == verifier@ && key.challenge_text()
                == s256_challenge(verifier@),
    {
        let bytes = verifier.as_str().as_bytes();
        if bytes.len() < VERIFIER_MIN_LENGTH || bytes.len() > VERIFIER_MAX_LENGTH {
            return None;
        }
        let mut i: usize = 0;
        while i < bytes.len()
            invariant
                i <= bytes@.len(),
                bytes@ == encode_utf8(verifier@),
                forall|j: int| 0 <= j < i ==> is_unreserved(#[trigger] bytes@[j]),
            decreases bytes.len() - i,
        {
            let b = bytes[i];
            let unreserved = (0x30 <= b && b <= 0x39) || (0x41 <= b && b <= 0x5a) || (0x61 <= b && b
                <= 0x7a) || b == 0x2d || b == 0x5f || b == 0x2e || b == 0x7e;
            if !unreserved {
                assert(!is_unreserved(bytes@[i as int]));
                return None;
            }
            i += 1;
        }
        let challenge = challenge_for(verifier.as_str());
        Some(PkceChallenge { verifier, challenge })
    }

    /// The verifier.
    pub fn code_verifier(&self) -> (res: &str)
        ensures
            res@ == self.verifier_text(),
            is_verifier(res.spec_bytes()),
    {
        proof {
            use_type_invariant(self);
        }
        self.verifier.as_str()
    }

    /// The challenge.
    pub fn code_challenge(&self) -> (res: &str)
        ensures
            res@ == self.challenge_text(),
            res@ == s256_challenge(self.verifier_text()),
    {
        proof {
            use_type_invariant(self);
        }
        self.challenge.as_str()
    }
}

/// The address to which a user is sent to sign in with this provider, and
/// what was made up for it.
#[derive(Debug)]
pub struct AuthorizationRequest {
    pub provider: OAuthProvider,
    pub url: String,
    pub csrf_state: String,
    pub pkce: PkceChallenge,
}

/// The address of an authorization request to the provider of `config`, as
/// `oauth2` composes it from the provider's address, the client id, the
/// redirect address, the scopes, the state and the challenge of the key.
pub open spec fn request_url(config: ConfigView, state: Seq<char>, verifier: Seq<char>) -> Seq<char> {
    authorization_url_text(
        config.auth_url,
        config.client_id,
        config.redirect_url,
        config.scopes,
        state,
        verifier,
    )
}

/// The address to which a user is sent to sign in: that of [`request_url`].
/// It is never empty.
pub fn authorization_url(config: &ProviderConfig, state: &str, pkce: &PkceChallenge) -> (url: String)
    ensures
        url@ == request_url(config@, state@, pkce.verifier_text()),
        url@.len() > 0,
{
    let scopes = config.scopes();
    assert(Seq::new(scopes@.len(), |i: int| scopes@[i]@) =~= config@.scopes);
    compose_url(
        config.auth_url(),
        config.client_id(),
        config.redirect_url(),
        scopes,
        state,
        pkce.code_verifier(),
    )
}

/// Begins a sign-in with the provider that goes by `provider`.
///
/// The registry is asked for the provider, and what it refuses is refused
/// here for the same reason. For a provider it gives, a fresh state and a
/// fresh proof key are made up, and the request holds them with the address
/// that [`authorization_url`] composes of them.
pub fn initiate(registry: &mut Registry, provider: &str, environment: &Environment) -> (res: Result<
    AuthorizationRequest,
    RegistryError,
>)
    ensures
        OAuthProvider::named(provider@) is None ==> final(registry)@ == old(registry)@,
        OAuthProvider::named(provider@) is Some ==> final(registry)@ == old(registry)@.read(
            *environment,
        ),
        match res {
            Ok(request) => {
                &&& OAuthProvider::named(provider@) == Some(request.provider)
                &&& final(registry)@.answer() matches Some(Ok(config))
                &&& config.provider == request.provider
                &&& request.url@ == request_url(config, request.csrf_state@, request.pkce.verifier_text())
                &&& request.url@.len() > 0
                &&& is_state(encode_utf8(request.csrf_state@))
            },
            Err(e) => {
                ||| OAuthProvider::named(provider@) is None && e == RegistryError::BadRequest
                ||| OAuthProvider::named(provider@) is Some && final(registry)@.answer() == Some(
                    Err::<ConfigView, RegistryError>(e),
                )
            },
        },
{
    let config = match registry.resolve(provider, environment) {
        Ok(config) => config,
        Err(e) => return Err(e),
    };
    let csrf_state = fresh_state();
    let pkce = PkceChallenge::new_random();
    let url = authorization_url(&config, csrf_state.as_str(), &pkce);
    Ok(AuthorizationRequest { provider: config.provider(), url, csrf_state, pkce })
}

} // verus!
