//! What signing in deals with: the provider, the profile it gives, and the
//! claims of a session.

use crate::domain::auth::exchange::{
    access_token, exchange_outcome, profile_headers, profile_request, string_of, token_of,
    token_request, token_request_body, HttpReply, ProfileRequest, TokenRequest, TransportError,
    GITHUB_USER_URL,
};
use crate::domain::auth::provider::ProviderConfig;
use crate::domain::auth::session::{bears, mint, session_claims, SessionConfig};
use vstd::prelude::*;
use vstd::std_specs::convert::TryFromSpecImpl;
use vstd::string::*;

verus! {

/// The identity providers that are known.
#[derive(Debug, Clone, Copy, PartialEq, Eq, Structural)]
pub enum OAuthProvider {
    Github,
}

impl OAuthProvider {
    /// The name under which the provider is asked for.
    pub open spec fn name(self) -> Seq<char> {
        match self {
            OAuthProvider::Github => "github"@,
        }
    }

    /// The provider that goes by `name`, if there is one.
    pub open spec fn named(name: Seq<char>) -> Option<OAuthProvider> {
        if name == "github"@ {
            Some(OAuthProvider::Github)
        } else {
            None
        }
    }
}

impl TryFromSpecImpl<String> for OAuthProvider {
    open spec fn obeys_try_from_spec() -> bool {
        true
    }

    open spec fn try_from_spec(t: String) -> Result<Self, ()> {
        match OAuthProvider::named(t@) {
            Some(provider) => Ok(provider),
            None => Err(()),
        }
    }
}

impl TryFrom<String> for OAuthProvider {
    type Error = ();

    /// Knows `github`, and nothing else.
    fn try_from(t: String) -> (res: Result<Self, ()>) {
        if t == "github".to_owned() {
            Ok(OAuthProvider::Github)
        } else {
            Err(())
        }
    }
}

impl OAuthProvider {
    /// The name under which the provider is asked for.
    pub fn to_name(self) -> (res: String)
        ensures
            res@ == self.name(),
            OAuthProvider::named(res@) == Some(self),
    {
        match self {
            OAuthProvider::Github => "github".to_owned(),
        }
    }
}

/// Why the provider gave no access token for an authorization code.
#[derive(Debug, Clone, Copy, PartialEq, Eq, Structural)]
pub enum TokenError {
    /// The provider answered with an error of its own.
    ServerResponse,
    /// The request did not get through, or no answer came in time.
    Request,
    /// The answer could not be read as a token response.
    Parse,
    /// Anything else.
    Other,
}

/// A profile as plain values.
pub struct Profile {
    pub id: int,
    pub login: Seq<char>,
    pub name: Option<Seq<char>>,
    pub avatar_url: Seq<char>,
}

impl Profile {
    /// Whether the profile names its user: the login and the address of the
    /// avatar are not empty.
    pub open spec fn well_formed(self) -> bool {
        self.login.len() > 0 && self.avatar_url.len() > 0
    }

    /// The name under which the user is stored: the one the provider gave,
    /// or the empty string where it gave none.
    pub open spec fn stored_name(self) -> Seq<char> {
        match self.name {
            Some(name) => name,
            None => Seq::empty(),
        }
    }
}

/// The profile of a user as the identity provider gives it.
#[derive(Debug)]
pub struct UserProfile {
    pub id: i64,
    pub login: String,
    pub name: Option<String>,
    pub avatar_url: String,
}

impl View for UserProfile {
    type V = Profile;

    open spec fn view(&self) -> Profile {
        Profile {
            id: self.id as int,
            login: self.login@,
            name: match self.name {
                Some(name) => Some(name@),
                None => None,
            },
            avatar_url: self.avatar_url@,
        }
    }
}

impl Clone for UserProfile {
    fn clone(&self) -> (res: Self)
        ensures
            res@ == self@,
    {
        UserProfile {
            id: self.id,
            login: self.login.clone(),
            name: match &self.name {
                Some(name) => Some(name.clone()),
                None => None,
            },
            avatar_url: self.avatar_url.clone(),
        }
    }
}

impl UserProfile {
    /// Whether the profile names its user.
    pub fn is_well_formed(&self) -> (b: bool)
        ensures
            b == self@.well_formed(),
    {
        !self.login.as_str().is_empty() && !self.avatar_url.as_str().is_empty()
    }

    /// The name under which the user is stored.
    pub fn stored_name(&self) -> (name: String)
        ensures
            name@ == self@.stored_name(),
    {
        match &self.name {
            Some(name) => name.clone(),
            None => String::new(),
        }
    }
}

/// The claims of a session as plain values.
pub struct ClaimSet {
    pub exp: nat,
    pub aud: Option<Seq<char>>,
    pub iss: Option<Seq<char>>,
    pub user: Profile,
}

/// What a session token says: until when it is good, who issued it, for
/// whom, and whose session it is.
#[derive(Debug)]
pub struct Claims {
    /// The instant at which the session ends, in milliseconds since the Unix
    /// epoch.
    pub exp: u128,
    pub aud: Option<String>,
    pub iss: Option<String>,
    pub user: UserProfile,
}

impl View for Claims {
    type V = ClaimSet;

    open spec fn view(&self) -> ClaimSet {
        ClaimSet {
            exp: self.exp as nat,
            aud: match self.aud {
                Some(aud) => Some(aud@),
                None => None,
            },
            iss: match self.iss {
                Some(iss) => Some(iss@),
                None => None,
            },
            user: self.user@,
        }
    }
}

/// The code that the provider hands to a user who signed in, to be exchanged
/// for an access token: any string but the empty one.
#[derive(Debug)]
pub struct AuthorizationCode(String);

impl View for AuthorizationCode {
    type V = Seq<char>;

    closed spec fn view(&self) -> Seq<char> {
        self.0@
    }
}

impl AuthorizationCode {
    /// The codes that are accepted.
    pub open spec fn accepts(s: Seq<char>) -> bool {
        s.len() > 0
    }

    #[verifier::type_invariant]
    spec fn inv(self) -> bool {
        Self::accepts(self.0@)
    }

    /// The code as a string slice.
    pub fn secret(&self) -> (s: &str)
        ensures
            s@ == self@,
            Self::accepts(s@),
    {
        proof {
            use_type_invariant(self);
        }
        self.0.as_str()
    }
}

impl TryFromSpecImpl<String> for AuthorizationCode {
    open spec fn obeys_try_from_spec() -> bool {
        true
    }

    closed spec fn try_from_spec(code: String) -> Result<Self, ()> {
        if Self::accepts(code@) {
            Ok(AuthorizationCode(code))
        } else {
            Err(())
        }
    }
}

impl TryFrom<String> for AuthorizationCode {
    type Error = ();

    /// Accepts every string but the empty one.
    fn try_from(code: String) -> (res: Result<Self, ()>)
        ensures
            res is Ok <==> Self::accepts(code@),
            res matches Ok(accepted) ==> accepted@ == code@,
    {
        if code.as_str().is_empty() {
            Err(())
        } else {
            Ok(Self(code))
        }
    }
}

/// A sign-in under way: the provider that the user signed in with, and the
/// code that it handed out.
#[derive(Debug)]
pub struct Authentication {
    pub config: ProviderConfig,
    pub auth_code: AuthorizationCode,
}

impl Authentication {
    /// The sign-in with the provider of `config` that `auth_code` came of.
    pub fn new(config: ProviderConfig, auth_code: AuthorizationCode) -> (auth: Self)
        ensures
            auth.config@ == config@,
            auth.auth_code@ == auth_code@,
    {
        Authentication { config, auth_code }
    }

    /// What to send to the provider to exchange the code for an access
    /// token: a form with the grant type, the code, the redirect address and
    /// the credentials of the client, as `oauth2` composes it, for the token
    /// address of the provider.
    pub fn token_request(&self) -> (request: TokenRequest)
        ensures
            request.url@ == self.config@.token_url,
            request.content_type@ == "application/x-www-form-urlencoded"@,
            request.accept@ == "application/json"@,
            request.body@ == token_request_body(
                self.config@.client_id,
                self.config@.client_secret,
                self.config@.redirect_url,
                self.auth_code@,
            ),
            request.timeout_millis == self.config@.timeout_millis,
    {
        token_request(&self.config, self.auth_code.secret())
    }

    /// The access token that came of the exchange, or why there is none:
    /// `Request` where no answer came, and what [`exchange_outcome`] makes of
    /// an answer.
    pub fn get_access_token(&self, exchange: Result<HttpReply, TransportError>) -> (res: Result<
        String,
        TokenError,
    >)
        ensures
            token_of(res) == match exchange {
                Ok(reply) => exchange_outcome(
                    reply.status,
                    string_of(reply.content_type),
                    reply.body@,
                ),
                Err(_) => Err(TokenError::Request),
            },
    {
        access_token(&self.config, exchange)
    }

    /// What to send to the provider to learn who the bearer of
    /// `access_token` is.
    pub fn profile_request(&self, user_agent: &str, access_token: &str) -> (request: ProfileRequest)
        ensures
            request.url@ == GITHUB_USER_URL@,
            request.headers@.len() == 3,
            forall|i: int|
                0 <= i < 3 ==> (request.headers@[i].0@, request.headers@[i].1@) == profile_headers(
                    user_agent@,
                    access_token@,
                )[i],
            request.timeout_millis == self.config@.timeout_millis,
    {
        profile_request(&self.config, user_agent, access_token)
    }

    /// The token of a session that begins at `now_millis` for the user of
    /// `profile`, signed under `session`.
    pub fn create_jwt(&self, profile: UserProfile, now_millis: u64, session: &SessionConfig) -> (token:
        String)
        ensures
            bears(
                token@,
                session_claims(profile@, now_millis, session.issuer@),
                session.secret@,
            ),
    {
        mint(profile, now_millis, session)
    }
}

} // verus!
