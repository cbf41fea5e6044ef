//! Signing a user in: from the code that the provider handed out to the
//! token of a session.
//!
//! The sign-in talks to the provider twice and to the profile store up to
//! three times. The library does none of the talking. [`execute`] begins a
//! sign-in and says what to do first; [`SignIn::advance`] takes what came of
//! it and says what to do next, until the sign-in is finished.

use crate::domain::auth::entity::{
    Authentication, AuthorizationCode, OAuthProvider, TokenError, UserProfile,
};
use crate::domain::auth::exchange::{
    exchange_outcome, profile_headers, string_of, token_request_body, HttpReply, ProfileRequest,
    TokenRequest, TransportError, GITHUB_USER_URL,
};
use crate::domain::auth::provider::{
    ConfigView, Environment, Misconfigured, Registry, RegistryError,
};
use crate::domain::auth::reconcile::{
    next, Command, CommandView, Reconciliation, Reply, Stage,
};
use crate::domain::auth::session::{bears, session_claims, SessionConfig};
use crate::domain::user::entity::Timestamp;
use vstd::prelude::*;
use vstd::string::*;

verus! {

/// What a user who signed in with a provider brings along.
#[derive(Debug)]
pub struct Request {
    pub provider: String,
    pub auth_code: String,
}

/// Why a sign-in failed.
#[derive(Debug, Clone, Copy, PartialEq, Eq, Structural)]
pub enum Error {
    /// No provider goes by the name given, or the code is empty.
    BadRequest,
    /// The environment does not set the provider up.
    Misconfigured(Misconfigured),
    /// The provider gave no access token for the code.
    Exchange(TokenError),
    /// The provider did not say who the user is.
    ProfileFetchFailed,
    /// What the provider said of the user cannot be read, or names no user.
    ProfileMalformed,
    /// The profile store failed.
    Unknown,
    /// Something was reported that the sign-in was not waiting for.
    OutOfTurn,
}

/// Why there is no profile to go on with.
#[derive(Debug, Clone, Copy, PartialEq, Eq, Structural)]
pub enum ProfileError {
    /// The request did not get through, or was refused.
    FetchFailed,
    /// The answer cannot be read as a profile.
    Malformed,
}

/// What came of the last thing that the sign-in asked for.
#[derive(Debug)]
pub enum Event {
    /// The answer of the token endpoint, or that none came.
    Exchanged(Result<HttpReply, TransportError>),
    /// The profile that the provider gave, with the instant at which it came,
    /// in milliseconds since the Unix epoch.
    ProfileFetched { profile: Result<UserProfile, ProfileError>, now_millis: u64 },
    /// The answer of the profile store.
    Stored(Reply),
}

/// What the sign-in asks for next.
#[derive(Debug)]
pub enum Action {
    /// Send this to the token endpoint and report the answer.
    Exchange(TokenRequest),
    /// Send this to the provider and report the profile in the answer.
    FetchProfile(ProfileRequest),
    /// Ask this of the profile store and report the answer.
    Store(Command),
    /// Nothing more: this is the token of the session, or why there is none.
    Finish(Result<String, Error>),
}

/// Where a sign-in stands.
#[derive(Debug, Clone, Copy, PartialEq, Eq, Structural)]
pub enum Progress {
    Exchanging,
    FetchingProfile,
    Reconciling,
    Finished,
}

/// A sign-in under way.
#[derive(Debug)]
pub struct SignIn {
    pub auth: Authentication,
    pub session: SessionConfig,
    pub user_agent: String,
    pub progress: Progress,
    pub reconciliation: Option<Reconciliation>,
}

/// Whether `request` is what is sent to exchange `code` with the provider
/// of `config`.
pub open spec fn exchanges(request: TokenRequest, config: ConfigView, code: Seq<char>) -> bool {
    &&& request.url@ == config.token_url
    &&& request.content_type@ == "application/x-www-form-urlencoded"@
    &&& request.accept@ == "application/json"@
    &&& request.body@ == token_request_body(
        config.client_id,
        config.client_secret,
        config.redirect_url,
        code,
    )
    &&& request.timeout_millis == config.timeout_millis
}

/// Whether `request` is what is sent to learn who the bearer of
/// `access_token` is.
pub open spec fn asks_profile(
    request: ProfileRequest,
    config: ConfigView,
    user_agent: Seq<char>,
    access_token: Seq<char>,
) -> bool {
    &&& request.url@ == GITHUB_USER_URL@
    &&& request.headers@.len() == 3
    &&& forall|i: int|
        0 <= i < 3 ==> (#[trigger] request.headers@[i].0@, request.headers@[i].1@)
            == profile_headers(user_agent, access_token)[i]
    &&& request.timeout_millis == config.timeout_millis
}

/// Begins a sign-in.
///
/// A request with an empty code, or with the name of no provider, is a bad
/// request, and the registry is not asked for it. For any other the registry
/// is asked for the provider; what it refuses as misconfigured fails the
/// sign-in for that reason. Otherwise the sign-in begins with the exchange of
/// the code.
pub fn execute(
    req: Request,
    registry: &mut Registry,
    environment: &Environment,
    session: SessionConfig,
    user_agent: String,
) -> (res: Result<(SignIn, Action), Error>)
    ensures
        ({
            let known = OAuthProvider::named(req.provider@) is Some;
            let valid = known && AuthorizationCode::accepts(req.auth_code@);
            &&& !valid ==> res == Err::<(SignIn, Action), Error>(Error::BadRequest) && final(registry)@
                == old(registry)@
            &&& valid ==> final(registry)@ == old(registry)@.read(*environment) && match old(
                registry)@.read(*environment).answer() {
                Some(Err(RegistryError::Misconfigured(e))) => res == Err::<(SignIn, Action), Error>(
                    Error::Misconfigured(e),
                ),
                Some(Err(RegistryError::BadRequest)) | None => res == Err::<(SignIn, Action), Error>(
                    Error::BadRequest,
                ),
                Some(Ok(config)) => res matches Ok((flow, Action::Exchange(request))) && exchanges(
                    request,
                    config,
                    req.auth_code@,
                ) && flow.progress == Progress::Exchanging && flow.auth.config@ == config
                    && flow.auth.auth_code@ == req.auth_code@ && flow.session.secret@
                    == session.secret@ && flow.session.issuer@ == session.issuer@
                    && flow.user_agent@ == user_agent@ && flow.reconciliation is None,
            }
        }),
{
    let auth_code = match AuthorizationCode::try_from(req.auth_code) {
        Ok(code) => code,
        Err(_) => return Err(Error::BadRequest),
    };
    let config = match registry.resolve(req.provider.as_str(), environment) {
        Ok(config) => config,
        Err(RegistryError::BadRequest) => return Err(Error::BadRequest),
        Err(RegistryError::Misconfigured(e)) => return Err(Error::Misconfigured(e)),
    };
    let auth = Authentication::new(config, auth_code);
    let request = auth.token_request();
    let flow = SignIn {
        auth,
        session,
        user_agent,
        progress: Progress::Exchanging,
        reconciliation: None,
    };
    Ok((flow, Action::Exchange(request)))
}

/// A result of the exchange as plain values.
pub open spec fn exchanged(exchange: Result<HttpReply, TransportError>) -> Result<
    Seq<char>,
    TokenError,
> {
    match exchange {
        Ok(reply) => exchange_outcome(reply.status, string_of(reply.content_type), reply.body@),
        Err(_) => Err(TokenError::Request),
    }
}

impl SignIn {
    /// Whether nothing of the sign-in changed but where it stands and what
    /// it reconciles.
    pub open spec fn continues(self, before: SignIn) -> bool {
        &&& self.auth.config@ == before.auth.config@
        &&& self.auth.auth_code@ == before.auth.auth_code@
        &&& self.session.secret@ == before.session.secret@
        &&& self.session.issuer@ == before.session.issuer@
        &&& self.user_agent@ == before.user_agent@
    }

    /// Whether the sign-in failed for the reason `e` with `action`.
    pub open spec fn fails(self, action: Action, e: Error) -> bool {
        self.progress == Progress::Finished && action == Action::Finish(Err(e))
    }

    /// Takes what came of the last action and says what to do next.
    ///
    /// After the exchange: without an access token the sign-in fails as the
    /// exchange did; with one, the provider is asked who its bearer is.
    ///
    /// After the profile came: a profile that could not be fetched or read,
    /// or that names no user, fails the sign-in. Any other is reconciled
    /// with the store at the instant at which it came, and the store is
    /// asked for the user first.
    ///
    /// After an answer of the store: the reconciliation says what to ask
    /// next. When it has nothing more to ask, the sign-in is finished: with
    /// the token of a session that begins at the instant at which the
    /// profile came, or, if the store failed, with `Unknown`.
    ///
    /// Whatever is reported out of turn fails the sign-in.
    pub fn advance(self, event: Event) -> (res: (SignIn, Action))
        ensures
            res.0.continues(self),
            match (self.progress, event) {
                (Progress::Exchanging, Event::Exchanged(exchange)) => match exchanged(exchange) {
                    Err(e) => res.0.fails(res.1, Error::Exchange(e)),
                    Ok(access_token) => res.0.progress == Progress::FetchingProfile && (
                    res.1 matches Action::FetchProfile(request) && asks_profile(
                        request,
                        self.auth.config@,
                        self.user_agent@,
                        access_token,
                    )),
                },
                (Progress::FetchingProfile, Event::ProfileFetched { profile, now_millis }) => match profile {
                    Err(ProfileError::FetchFailed) => res.0.fails(res.1, Error::ProfileFetchFailed),
                    Err(ProfileError::Malformed) => res.0.fails(res.1, Error::ProfileMalformed),
                    Ok(profile) => if !profile@.well_formed() {
                        res.0.fails(res.1, Error::ProfileMalformed)
                    } else {
                        &&& res.0.progress == Progress::Reconciling
                        &&& res.0.reconciliation matches Some(begun)
                        &&& begun.profile@ == profile@
                        &&& begun.now == Timestamp::at_spec(now_millis)
                        &&& begun.stage == Stage::Fetching
                        &&& res.1 matches Action::Store(command)
                        &&& command@ == (CommandView::FetchOne { id: profile.id as int })
                    },
                },
                (Progress::Reconciling, Event::Stored(reply)) => match self.reconciliation {
                    None => res.0.fails(res.1, Error::OutOfTurn),
                    Some(before) => {
                        let (stage, step) = next(before.stage, reply.kind());
                        match Reconciliation::command_for(before.profile@, before.now, step) {
                            Some(command) => {
                                &&& res.0.progress == Progress::Reconciling
                                &&& res.0.reconciliation matches Some(after)
                                &&& after.profile@ == before.profile@
                                &&& after.now == before.now
                                &&& after.stage == stage
                                &&& res.1 matches Action::Store(asked)
                                &&& asked@ == command
                            },
                            None => if stage == Stage::Done {
                                &&& res.0.progress == Progress::Finished
                                &&& res.1 matches Action::Finish(Ok(token))
                                &&& bears(
                                    token@,
                                    session_claims(
                                        before.profile@,
                                        before.now.epoch_millis,
                                        self.session.issuer@,
                                    ),
                                    self.session.secret@,
                                )
                            } else {
                                res.0.fails(res.1, Error::Unknown)
                            },
                        }
                    },
                },
                _ => res.0.fails(res.1, Error::OutOfTurn),
            },
    {
        let SignIn { auth, session, user_agent, progress, reconciliation } = self;
        match (progress, event) {
            (Progress::Exchanging, Event::Exchanged(exchange)) => {
                match auth.get_access_token(exchange) {
                    Err(e) => finished(auth, session, user_agent, Err(Error::Exchange(e))),
                    Ok(access_token) => {
                        let request = auth.profile_request(user_agent.as_str(), access_token.as_str());
                        (
                            SignIn {
                                auth,
                                session,
                                user_agent,
                                progress: Progress::FetchingProfile,
                                reconciliation: None,
                            },
                            Action::FetchProfile(request),
                        )
                    },
                }
            },
            (Progress::FetchingProfile, Event::ProfileFetched { profile, now_millis }) => {
                match profile {
                    Err(ProfileError::FetchFailed) => finished(
                        auth,
                        session,
                        user_agent,
                        Err(Error::ProfileFetchFailed),
                    ),
                    Err(ProfileError::Malformed) => finished(
                        auth,
                        session,
                        user_agent,
                        Err(Error::ProfileMalformed),
                    ),
                    Ok(profile) => {
                        if !profile.is_well_formed() {
                            return finished(auth, session, user_agent, Err(Error::ProfileMalformed));
                        }
                        let (begun, command) = Reconciliation::start(profile, Timestamp::at(now_millis));
                        (
                            SignIn {
                                auth,
                                session,
                                user_agent,
                                progress: Progress::Reconciling,
                                reconciliation: Some(begun),
                            },
                            Action::Store(command),
                        )
                    },
                }
            },
            (Progress::Reconciling, Event::Stored(reply)) => {
                let before = match reconciliation {
                    Some(before) => before,
                    None => return finished(auth, session, user_agent, Err(Error::OutOfTurn)),
                };
                let (after, command) = before.advance(reply);
                match command {
                    Some(command) => (
                        SignIn {
                            auth,
                            session,
                            user_agent,
                            progress: Progress::Reconciling,
                            reconciliation: Some(after),
                        },
                        Action::Store(command),
                    ),
                    None => match after.outcome() {
                        Some(Ok(profile)) => {
                            let token = auth.create_jwt(profile, after.now.epoch_millis, &session);
                            finished(auth, session, user_agent, Ok(token))
                        },
                        _ => finished(auth, session, user_agent, Err(Error::Unknown)),
                    },
                }
            },
            _ => finished(auth, session, user_agent, Err(Error::OutOfTurn)),
        }
    }
}

/// The sign-in once it is over, with its result.
fn finished(auth: Authentication, session: SessionConfig, user_agent: String, result: Result<
    String,
    Error,
>) -> (res: (SignIn, Action))
    ensures
        res.0.auth == auth,
        res.0.session == session,
        res.0.user_agent == user_agent,
        res.0.progress == Progress::Finished,
        res.0.reconciliation is None,
        res.1 == Action::Finish(result),
{
    (
        SignIn { auth, session, user_agent, progress: Progress::Finished, reconciliation: None },
        Action::Finish(result),
    )
}

} // verus!
