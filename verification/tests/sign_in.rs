use decafo::domain::auth::authorization::{authorization_url, initiate, PkceChallenge};
use decafo::domain::auth::entity::{AuthorizationCode, OAuthProvider, TokenError, UserProfile};
use decafo::domain::auth::exchange::{is_json, HttpReply, TransportError, GITHUB_USER_URL};
use decafo::domain::auth::fetch_access_token::{
    execute, Action, Error, Event, ProfileError, Progress, Request,
};
use decafo::domain::auth::provider::{
    Environment, Misconfigured, ProviderConfig, Registry, RegistryError, Variable,
    DEFAULT_TIMEOUT_MILLIS,
};
use decafo::domain::auth::reconcile::{
    perform, reconcile, Command, Reconciliation, Reply, Stage, StoreError,
};
use decafo::domain::auth::session::{verify_session, SessionConfig};
use decafo::domain::user::entity::{Timestamp, UserEntity};
use decafo::repositories::user::{
    FetchOneError, InMemoryRepository, InsertError, Repository, UpdateError,
};
use oauth2::url::Url;

fn environment() -> Environment {
    Environment {
        github_client_id: Some("abc".to_string()),
        github_client_secret: Some("shh".to_string()),
        github_auth_url: Some("https://example/auth".to_string()),
        github_token_url: Some("https://example/token".to_string()),
        github_redirect_url: Some("https://app/cb".to_string()),
    }
}

fn github() -> ProviderConfig {
    ProviderConfig::github(&environment()).unwrap()
}

fn session() -> SessionConfig {
    SessionConfig { secret: b"secret".to_vec(), issuer: "DECAFO".to_string() }
}

fn kent(name: Option<&str>, avatar: &str) -> UserProfile {
    UserProfile {
        id: 443,
        login: "kent-back".to_string(),
        name: name.map(str::to_string),
        avatar_url: avatar.to_string(),
    }
}

fn query(url: &str) -> Vec<(String, String)> {
    Url::parse(url).unwrap().query_pairs().map(|(k, v)| (k.into_owned(), v.into_owned())).collect()
}

fn value<'a>(pairs: &'a [(String, String)], key: &str) -> Option<&'a str> {
    let found: Vec<&(String, String)> = pairs.iter().filter(|(k, _)| k == key).collect();
    assert!(found.len() <= 1);
    found.first().map(|(_, v)| v.as_str())
}

#[test]
fn provider_names() {
    assert_eq!(OAuthProvider::try_from("github".to_string()), Ok(OAuthProvider::Github));
    assert_eq!(OAuthProvider::try_from("google".to_string()), Err(()));
    assert_eq!(OAuthProvider::try_from("Github".to_string()), Err(()));
    assert_eq!(OAuthProvider::try_from("github ".to_string()), Err(()));
    assert_eq!(OAuthProvider::try_from(String::new()), Err(()));
    assert_eq!(OAuthProvider::Github.to_name(), "github");
}

#[test]
fn registry_reads_the_environment_once() {
    let mut registry = Registry::new();
    assert!(matches!(registry, Registry::Unread));
    let config = registry.resolve("github", &environment()).unwrap();
    assert_eq!(config.provider(), OAuthProvider::Github);
    assert_eq!(config.client_id(), "abc");
    assert_eq!(config.client_secret(), "shh");
    assert_eq!(config.auth_url(), "https://example/auth");
    assert_eq!(config.token_url(), "https://example/token");
    assert_eq!(config.redirect_url(), "https://app/cb");
    assert_eq!(config.scopes(), &vec!["read:user".to_string(), "user:email".to_string()]);
    assert_eq!(config.timeout_millis(), 10_000);
    assert_eq!(DEFAULT_TIMEOUT_MILLIS, 10_000);
    let changed = Environment { github_client_id: None, ..environment() };
    let again = registry.resolve("github", &changed).unwrap();
    assert_eq!(again.client_id(), "abc");
    assert_eq!(config.clone().with_timeout(5).timeout_millis(), 5);
}

#[test]
fn registry_keeps_what_was_wrong_at_first() {
    let mut registry = Registry::new();
    let broken = Environment { github_token_url: None, ..environment() };
    let missing = RegistryError::Misconfigured(Misconfigured::Missing(Variable::GithubTokenUrl));
    assert_eq!(registry.resolve("github", &broken).err(), Some(missing));
    assert_eq!(registry.resolve("github", &environment()).err(), Some(missing));
}

#[test]
fn registry_refuses_an_unknown_provider_without_reading() {
    let mut registry = Registry::new();
    let broken = Environment { github_client_id: None, ..environment() };
    assert_eq!(registry.resolve("google", &broken).err(), Some(RegistryError::BadRequest));
    assert!(matches!(registry, Registry::Unread));
    assert!(registry.resolve("github", &environment()).is_ok());
    assert_eq!(registry.resolve("google", &environment()).err(), Some(RegistryError::BadRequest));
}

#[test]
fn environment_is_looked_at_in_order() {
    let none = Environment {
        github_client_id: None,
        github_client_secret: None,
        github_auth_url: None,
        github_token_url: None,
        github_redirect_url: None,
    };
    let missing = |v| Some(Misconfigured::Missing(v));
    let invalid = |v| Some(Misconfigured::InvalidUrl(v));
    assert_eq!(ProviderConfig::github(&none).err(), missing(Variable::GithubClientId));
    let e = Environment { github_client_id: Some(String::new()), ..none };
    assert_eq!(ProviderConfig::github(&e).err(), missing(Variable::GithubClientSecret));
    let e = Environment { github_client_secret: Some(String::new()), ..e };
    assert_eq!(ProviderConfig::github(&e).err(), missing(Variable::GithubAuthUrl));
    let e = Environment { github_auth_url: Some("no address".to_string()), ..e };
    assert_eq!(ProviderConfig::github(&e).err(), invalid(Variable::GithubAuthUrl));
    let e = Environment { github_auth_url: Some("https://example/auth".to_string()), ..e };
    assert_eq!(ProviderConfig::github(&e).err(), missing(Variable::GithubTokenUrl));
    let e = Environment { github_token_url: Some("/relative".to_string()), ..e };
    assert_eq!(ProviderConfig::github(&e).err(), invalid(Variable::GithubTokenUrl));
    let e = Environment { github_token_url: Some("https://example/token".to_string()), ..e };
    assert_eq!(ProviderConfig::github(&e).err(), missing(Variable::GithubRedirectUrl));
    let e = Environment { github_redirect_url: Some(String::new()), ..e };
    assert_eq!(ProviderConfig::github(&e).err(), invalid(Variable::GithubRedirectUrl));
    let e = Environment { github_redirect_url: Some("https://app/cb".to_string()), ..e };
    assert!(ProviderConfig::github(&e).is_ok());
    assert_eq!(Variable::GithubClientId.name(), "GITHUB_CLIENT_ID");
    assert_eq!(Variable::GithubClientSecret.name(), "GITHUB_CLIENT_SECRET");
    assert_eq!(Variable::GithubAuthUrl.name(), "GITHUB_AUTH_URL");
    assert_eq!(Variable::GithubTokenUrl.name(), "GITHUB_TOKEN_URL");
    assert_eq!(Variable::GithubRedirectUrl.name(), "GITHUB_REDIRECT_URL");
}

#[test]
fn proof_key_follows_the_published_example() {
    let key = PkceChallenge::from_verifier("dBjftJeZ4CVP-mB92K27uhbUJU1p1r_wW1gFWFOEjXk".to_string()).unwrap();
    assert_eq!(key.code_verifier(), "dBjftJeZ4CVP-mB92K27uhbUJU1p1r_wW1gFWFOEjXk");
    assert_eq!(key.code_challenge(), "E9Melhoa2OwvFrEMTJguCHaoeK1t8URWbuGJSstw-cM");
}

#[test]
fn proof_key_verifier_limits() {
    assert!(PkceChallenge::from_verifier("a".repeat(42)).is_none());
    assert!(PkceChallenge::from_verifier("a".repeat(43)).is_some());
    assert!(PkceChallenge::from_verifier("a".repeat(128)).is_some());
    assert!(PkceChallenge::from_verifier("a".repeat(129)).is_none());
    assert!(PkceChallenge::from_verifier(format!("{}-._~09AZaz", "a".repeat(40))).is_some());
    assert!(PkceChallenge::from_verifier(format!("{}+", "a".repeat(43))).is_none());
    assert!(PkceChallenge::from_verifier(format!("{} ", "a".repeat(43))).is_none());
    assert!(PkceChallenge::from_verifier("\u{e9}".repeat(43)).is_none());
    assert!(PkceChallenge::from_verifier(String::new()).is_none());
}

#[test]
fn random_proof_keys_differ_and_hold_together() {
    let one = PkceChallenge::new_random();
    let two = PkceChallenge::new_random();
    assert_ne!(one.code_verifier(), two.code_verifier());
    assert_eq!(one.code_verifier().len(), 43);
    let again = PkceChallenge::from_verifier(one.code_verifier().to_string()).unwrap();
    assert_eq!(again.code_challenge(), one.code_challenge());
    assert_eq!(one.code_challenge().len(), 43);
}

#[test]
fn initiate_github() {
    let key = PkceChallenge::from_verifier("dBjftJeZ4CVP-mB92K27uhbUJU1p1r_wW1gFWFOEjXk".to_string()).unwrap();
    let url = authorization_url(&github(), "N", &key);
    assert!(url.starts_with("https://example/auth?"));
    let pairs = query(&url);
    assert_eq!(value(&pairs, "client_id"), Some("abc"));
    assert_eq!(value(&pairs, "redirect_uri"), Some("https://app/cb"));
    assert_eq!(value(&pairs, "response_type"), Some("code"));
    assert_eq!(value(&pairs, "state"), Some("N"));
    assert_eq!(value(&pairs, "code_challenge"), Some("E9Melhoa2OwvFrEMTJguCHaoeK1t8URWbuGJSstw-cM"));
    assert_eq!(value(&pairs, "code_challenge_method"), Some("S256"));
    let scope = value(&pairs, "scope").unwrap();
    assert!(scope.split(' ').any(|s| s == "user:email"));
    assert_eq!(scope, "read:user user:email");
    assert_eq!(pairs.len(), 7);
    assert_eq!(value(&pairs, "client_secret"), None);
}

#[test]
fn initiate_makes_up_a_fresh_state_and_key() {
    let mut registry = Registry::new();
    let one = initiate(&mut registry, "github", &environment()).unwrap();
    let two = initiate(&mut registry, "github", &environment()).unwrap();
    assert_eq!(one.provider, OAuthProvider::Github);
    assert!(!one.url.is_empty());
    assert_eq!(one.csrf_state.len(), 43);
    assert!(one.csrf_state.bytes().all(|b| b.is_ascii_alphanumeric() || b == b'-' || b == b'_'));
    assert_ne!(one.csrf_state, two.csrf_state);
    assert_ne!(one.pkce.code_verifier(), two.pkce.code_verifier());
    let pairs = query(&one.url);
    assert_eq!(value(&pairs, "state"), Some(one.csrf_state.as_str()));
    assert_eq!(value(&pairs, "code_challenge"), Some(one.pkce.code_challenge()));
    assert_eq!(one.url, authorization_url(&github(), &one.csrf_state, &one.pkce));
}

#[test]
fn unknown_provider() {
    let mut registry = Registry::new();
    assert_eq!(initiate(&mut registry, "google", &environment()).err(), Some(RegistryError::BadRequest));
}

#[test]
fn initiate_fails_as_the_registry_does() {
    let mut registry = Registry::new();
    let broken = Environment { github_auth_url: Some(":".to_string()), ..environment() };
    assert_eq!(
        initiate(&mut registry, "github", &broken).err(),
        Some(RegistryError::Misconfigured(Misconfigured::InvalidUrl(Variable::GithubAuthUrl)))
    );
}

fn begin() -> (decafo::domain::auth::fetch_access_token::SignIn, Action) {
    let req = Request { provider: "github".to_string(), auth_code: "the code".to_string() };
    let mut registry = Registry::new();
    execute(req, &mut registry, &environment(), session(), "DECAFO".to_string()).unwrap()
}

fn reply(status: u16, content_type: Option<&str>, body: &str) -> Result<HttpReply, TransportError> {
    Ok(HttpReply { status, content_type: content_type.map(str::to_string), body: body.as_bytes().to_vec() })
}

const TOKEN_REPLY: &str = "{\"access_token\":\"gho_t\",\"token_type\":\"bearer\",\"scope\":\"read:user\"}";

#[test]
fn it_should_be_return_a_bad_request_when_provider_valid() {
    let req = Request { provider: "google".to_string(), auth_code: "test".to_string() };
    let mut registry = Registry::new();

    let res = execute(req, &mut registry, &environment(), session(), "DECAFO".to_string());

    match res {
        Err(Error::BadRequest) => {}
        _ => unreachable!(),
    }
    assert!(matches!(registry, Registry::Unread));
}

#[test]
fn sign_in_refuses_an_empty_code_and_a_broken_environment() {
    let mut registry = Registry::new();
    let req = Request { provider: "github".to_string(), auth_code: String::new() };
    let res = execute(req, &mut registry, &environment(), session(), String::new());
    assert!(matches!(res, Err(Error::BadRequest)));
    assert!(matches!(registry, Registry::Unread));
    let req = Request { provider: "github".to_string(), auth_code: "c".to_string() };
    let broken = Environment { github_client_secret: None, ..environment() };
    let res = execute(req, &mut registry, &broken, session(), String::new());
    assert!(matches!(
        res,
        Err(Error::Misconfigured(Misconfigured::Missing(Variable::GithubClientSecret)))
    ));
    assert!(AuthorizationCode::try_from(String::new()).is_err());
    assert_eq!(AuthorizationCode::try_from("c".to_string()).unwrap().secret(), "c");
}

#[test]
fn sign_in_begins_with_the_exchange_of_the_code() {
    let (flow, action) = begin();
    assert_eq!(flow.progress, Progress::Exchanging);
    let request = match action {
        Action::Exchange(request) => request,
        _ => unreachable!(),
    };
    assert_eq!(request.url, "https://example/token");
    assert_eq!(request.content_type, "application/x-www-form-urlencoded");
    assert_eq!(request.accept, "application/json");
    assert_eq!(request.timeout_millis, 10_000);
    let form: Vec<(String, String)> = oauth2::url::form_urlencoded::parse(&request.body)
        .map(|(k, v)| (k.into_owned(), v.into_owned()))
        .collect();
    assert_eq!(value(&form, "grant_type"), Some("authorization_code"));
    assert_eq!(value(&form, "code"), Some("the code"));
    assert_eq!(value(&form, "redirect_uri"), Some("https://app/cb"));
    assert_eq!(value(&form, "client_id"), Some("abc"));
    assert_eq!(value(&form, "client_secret"), Some("shh"));
    assert_eq!(form.len(), 5);
}

#[test]
fn exchange_outcomes() {
    let (flow, _) = begin();
    let auth = &flow.auth;
    let json = Some("application/json; charset=utf-8");
    assert_eq!(auth.get_access_token(reply(200, json, TOKEN_REPLY)), Ok("gho_t".to_string()));
    assert_eq!(auth.get_access_token(reply(200, None, TOKEN_REPLY)), Ok("gho_t".to_string()));
    assert_eq!(auth.get_access_token(reply(200, Some("Application/JSON"), TOKEN_REPLY)), Ok("gho_t".to_string()));
    assert_eq!(auth.get_access_token(Err(TransportError)), Err(TokenError::Request));
    assert_eq!(
        auth.get_access_token(reply(400, json, "{\"error\":\"invalid_grant\"}")),
        Err(TokenError::ServerResponse)
    );
    assert_eq!(
        auth.get_access_token(reply(400, Some("text/html"), "{\"error\":\"invalid_grant\"}")),
        Err(TokenError::ServerResponse)
    );
    assert_eq!(auth.get_access_token(reply(500, json, "oops")), Err(TokenError::Parse));
    assert_eq!(auth.get_access_token(reply(500, json, "")), Err(TokenError::Other));
    assert_eq!(auth.get_access_token(reply(200, json, "{\"token_type\":\"bearer\"}")), Err(TokenError::Parse));
    assert_eq!(auth.get_access_token(reply(200, json, "")), Err(TokenError::Other));
    assert_eq!(auth.get_access_token(reply(200, Some("text/plain"), TOKEN_REPLY)), Err(TokenError::Other));
    assert_eq!(auth.get_access_token(reply(200, Some(""), TOKEN_REPLY)), Err(TokenError::Other));
    assert_eq!(auth.get_access_token(reply(99, json, TOKEN_REPLY)), Err(TokenError::Other));
    assert_eq!(auth.get_access_token(reply(1000, json, TOKEN_REPLY)), Err(TokenError::Other));
    assert_eq!(auth.get_access_token(reply(201, json, TOKEN_REPLY)), Err(TokenError::Parse));
}

#[test]
fn content_types_that_say_json() {
    assert!(is_json("application/json"));
    assert!(is_json("APPLICATION/JSON;charset=UTF-8"));
    assert!(is_json("application/jsonx"));
    assert!(!is_json("application/jso"));
    assert!(!is_json(" application/json"));
    assert!(!is_json("text/json"));
    assert!(!is_json(""));
    assert!(!is_json("\u{e9}pplication/json"));
}

#[test]
fn profile_is_asked_for_with_the_access_token_as_bearer() {
    let (flow, _) = begin();
    let (flow, action) = flow.advance(Event::Exchanged(reply(200, None, TOKEN_REPLY)));
    assert_eq!(flow.progress, Progress::FetchingProfile);
    let request = match action {
        Action::FetchProfile(request) => request,
        _ => unreachable!(),
    };
    assert_eq!(request.url, "https://api.github.com/user");
    assert_eq!(request.url, GITHUB_USER_URL);
    assert_eq!(
        request.headers,
        vec![
            ("Content-Type".to_string(), "application/json".to_string()),
            ("User-Agent".to_string(), "DECAFO".to_string()),
            ("Authorization".to_string(), "Bearer gho_t".to_string()),
        ]
    );
    assert_eq!(request.timeout_millis, 10_000);
}

#[test]
fn sign_in_fails_as_the_exchange_does() {
    for (exchange, error) in [
        (Err(TransportError), TokenError::Request),
        (reply(401, None, "{\"error\":\"invalid_client\"}"), TokenError::ServerResponse),
        (reply(200, None, "x"), TokenError::Parse),
        (reply(200, None, ""), TokenError::Other),
    ] {
        let (flow, _) = begin();
        let (flow, action) = flow.advance(Event::Exchanged(exchange));
        assert_eq!(flow.progress, Progress::Finished);
        assert!(matches!(action, Action::Finish(Err(Error::Exchange(e))) if e == error));
    }
}

fn fetched(profile: Result<UserProfile, ProfileError>, now_millis: u64) -> Event {
    Event::ProfileFetched { profile, now_millis }
}

#[test]
fn sign_in_fails_without_a_profile() {
    for (profile, error) in [
        (Err(ProfileError::FetchFailed), Error::ProfileFetchFailed),
        (Err(ProfileError::Malformed), Error::ProfileMalformed),
        (Ok(UserProfile { login: String::new(), ..kent(None, "a") }), Error::ProfileMalformed),
        (Ok(kent(Some("Kent"), "")), Error::ProfileMalformed),
    ] {
        let (flow, _) = begin();
        let (flow, _) = flow.advance(Event::Exchanged(reply(200, None, TOKEN_REPLY)));
        let (flow, action) = flow.advance(fetched(profile, 5));
        assert_eq!(flow.progress, Progress::Finished);
        assert!(matches!(action, Action::Finish(Err(e)) if e == error));
    }
}

#[test]
fn sign_in_fails_on_what_comes_out_of_turn() {
    let (flow, _) = begin();
    let (flow, action) = flow.advance(fetched(Ok(kent(None, "a")), 5));
    assert!(matches!(action, Action::Finish(Err(Error::OutOfTurn))));
    let (flow, action) = flow.advance(Event::Exchanged(reply(200, None, TOKEN_REPLY)));
    assert!(matches!(action, Action::Finish(Err(Error::OutOfTurn))));
    assert_eq!(flow.progress, Progress::Finished);
    let (flow, _) = begin();
    let (_, action) = flow.advance(Event::Stored(Reply::Fetched(Err(FetchOneError::NotFound))));
    assert!(matches!(action, Action::Finish(Err(Error::OutOfTurn))));
}

fn run(repo: &mut InMemoryRepository, profile: UserProfile, now_millis: u64) -> Result<String, Error> {
    let (flow, _) = begin();
    let (flow, _) = flow.advance(Event::Exchanged(reply(200, None, TOKEN_REPLY)));
    let (mut flow, mut action) = flow.advance(fetched(Ok(profile), now_millis));
    let mut asked = 0;
    loop {
        match action {
            Action::Store(command) => {
                asked += 1;
                assert!(asked <= 3);
                assert_eq!(flow.progress, Progress::Reconciling);
                let next = flow.advance(Event::Stored(perform(repo, command)));
                flow = next.0;
                action = next.1;
            }
            Action::Finish(result) => {
                assert_eq!(flow.progress, Progress::Finished);
                return result;
            }
            _ => unreachable!(),
        }
    }
}

#[test]
fn sign_in_stores_the_user_and_gives_a_session() {
    let mut repo = InMemoryRepository::new();
    let token = run(&mut repo, kent(Some("Kent"), "https://a/k"), 1_666_000_000_000).unwrap();
    assert_eq!(repo.len(), 1);
    let claims = verify_session(&token, b"secret", 1_666_000_000_000).unwrap();
    assert_eq!(claims.exp, 1_666_003_600_000);
    assert_eq!(claims.iss, Some("DECAFO".to_string()));
    assert_eq!(claims.aud, Some(String::new()));
    assert_eq!(claims.user.id, 443);
    assert_eq!(claims.user.login, "kent-back");
    assert_eq!(claims.user.name, Some("Kent".to_string()));
    assert_eq!(claims.user.avatar_url, "https://a/k");
    let again = run(&mut repo, kent(Some("Kent Beck"), "https://a/k2"), 1_666_000_000_001).unwrap();
    assert_eq!(repo.len(), 1);
    assert_eq!(repo.fetch_one(443).unwrap().name, "Kent Beck");
    assert_eq!(verify_session(&again, b"secret", 0).unwrap().user.name, Some("Kent Beck".to_string()));
}

#[test]
fn sign_in_fails_as_unknown_when_the_store_fails() {
    let mut repo = InMemoryRepository::new().with_error();
    let res = run(&mut repo, kent(Some("Kent"), "https://a/k"), 1);
    assert_eq!(res, Err(Error::Unknown));
    assert_eq!(repo.len(), 0);
}

#[test]
fn upsert_insert() {
    let mut repo = InMemoryRepository::new();
    let t = Timestamp::at(1_666_000_000_000);
    let res = reconcile(&mut repo, kent(Some("Kent"), "https://a/k"), t).unwrap();
    assert_eq!(res.id, 443);
    assert_eq!(res.name, Some("Kent".to_string()));
    assert_eq!(repo.len(), 1);
    let row = repo.get(0).unwrap();
    assert_eq!(row.id, 443);
    assert_eq!(row.login, "kent-back");
    assert_eq!(row.name, "Kent");
    assert_eq!(row.avatar_url, "https://a/k");
    assert_eq!(row.email, None);
    assert_eq!(row.created_at, t);
    assert_eq!(row.updated_at, t);
    assert_eq!(t.offset_seconds, 9 * 3600);
}

#[test]
fn upsert_update() {
    let mut repo = InMemoryRepository::new();
    let t0 = Timestamp::at(1_000);
    let t1 = Timestamp::at(2_000);
    let _ = reconcile(&mut repo, kent(Some("Kent"), "https://a/k"), t0);
    let res = reconcile(&mut repo, kent(Some("Kent Beck"), "https://a/k2"), t1).unwrap();
    assert_eq!(res.name, Some("Kent Beck".to_string()));
    assert_eq!(repo.len(), 1);
    let row = repo.get(0).unwrap();
    assert_eq!(row.id, 443);
    assert_eq!(row.login, "kent-back");
    assert_eq!(row.name, "Kent Beck");
    assert_eq!(row.avatar_url, "https://a/k2");
    assert_eq!(row.email, None);
    assert_eq!(row.created_at, t0);
    assert_eq!(row.updated_at, t1);
    assert!(row.updated_at.is_after(&t0));
}

#[test]
fn upsert_stores_a_user_without_a_name_under_the_empty_name() {
    let mut repo = InMemoryRepository::new();
    let _ = reconcile(&mut repo, kent(None, "https://a/k"), Timestamp::at(1)).unwrap();
    assert_eq!(repo.get(0).unwrap().name, "");
    let _ = reconcile(&mut repo, kent(Some("Kent"), "https://a/k"), Timestamp::at(2)).unwrap();
    assert_eq!(repo.get(0).unwrap().name, "Kent");
    let _ = reconcile(&mut repo, kent(None, "https://a/k"), Timestamp::at(3)).unwrap();
    assert_eq!(repo.get(0).unwrap().name, "");
    assert_eq!(repo.len(), 1);
}

#[test]
fn upsert_takes_identifiers_that_no_request_could_name() {
    let mut repo = InMemoryRepository::new();
    for id in [i64::MIN, -1, 0, 2_147_483_648, i64::MAX] {
        let profile = UserProfile { id, ..kent(None, "a") };
        assert!(reconcile(&mut repo, profile, Timestamp::at(1)).is_ok());
        assert_eq!(repo.fetch_one(id).unwrap().id, id);
    }
    assert_eq!(repo.len(), 5);
}

#[test]
fn upsert_fails_when_the_store_fails() {
    let mut repo = InMemoryRepository::new().with_error();
    let res = reconcile(&mut repo, kent(None, "a"), Timestamp::at(1));
    assert_eq!(res.err(), Some(StoreError::Unknown));
}

fn stored(now: u64) -> UserEntity {
    UserEntity {
        id: 443,
        login: "kent-back".to_string(),
        name: "Kent".to_string(),
        avatar_url: "https://a/k".to_string(),
        email: None,
        created_at: Timestamp::at(now),
        updated_at: Timestamp::at(now),
    }
}

#[test]
fn reconciliation_retries_a_conflict_once_as_an_update() {
    let (state, first) = Reconciliation::start(kent(Some("Kent"), "https://a/k"), Timestamp::at(9));
    assert!(matches!(first, Command::FetchOne { id: 443 }));
    assert_eq!(state.stage, Stage::Fetching);
    assert!(state.outcome().is_none());
    let (state, second) = state.advance(Reply::Fetched(Err(FetchOneError::NotFound)));
    assert_eq!(state.stage, Stage::Inserting);
    match second {
        Some(Command::Insert { user }) => {
            assert_eq!(user.id, 443);
            assert_eq!(user.login, "kent-back");
            assert_eq!(user.name, "Kent");
            assert_eq!(user.avatar_url, "https://a/k");
            assert_eq!(user.email, None);
            assert_eq!(user.created_at, Timestamp::at(9));
            assert_eq!(user.updated_at, Timestamp::at(9));
        }
        _ => unreachable!(),
    }
    let (state, third) = state.advance(Reply::Inserted(Err(InsertError::Conflict)));
    assert_eq!(state.stage, Stage::Updating);
    match third {
        Some(Command::Update { id, name, avatar_url, now }) => {
            assert_eq!(id, 443);
            assert_eq!(name, "Kent");
            assert_eq!(avatar_url, "https://a/k");
            assert_eq!(now, Timestamp::at(9));
        }
        _ => unreachable!(),
    }
    let (failed, none) = state.advance(Reply::Updated(Err(UpdateError::Unknown)));
    assert!(none.is_none());
    assert_eq!(failed.stage, Stage::Failed);
    assert_eq!(failed.outcome().map(|r| r.err()), Some(Some(StoreError::Unknown)));
}

#[test]
fn reconciliation_rules() {
    let start = || Reconciliation::start(kent(None, "a"), Timestamp::at(1)).0;
    let (s, c) = start().advance(Reply::Fetched(Ok(stored(0))));
    assert_eq!(s.stage, Stage::Updating);
    assert!(matches!(c, Some(Command::Update { id: 443, .. })));
    let (s, c) = s.advance(Reply::Updated(Ok(stored(1))));
    assert_eq!(s.stage, Stage::Done);
    assert!(c.is_none());
    assert_eq!(s.outcome().unwrap().unwrap().id, 443);
    let (s, c) = s.advance(Reply::Updated(Err(UpdateError::Unknown)));
    assert_eq!(s.stage, Stage::Done);
    assert!(c.is_none());
    let (s, c) = start().advance(Reply::Fetched(Err(FetchOneError::Unknown)));
    assert_eq!(s.stage, Stage::Inserting);
    assert!(matches!(c, Some(Command::Insert { .. })));
    let (s, c) = s.advance(Reply::Inserted(Err(InsertError::Unknown)));
    assert_eq!(s.stage, Stage::Failed);
    assert!(c.is_none());
    let (s, c) = s.advance(Reply::Inserted(Ok(stored(1))));
    assert_eq!(s.stage, Stage::Failed);
    assert!(c.is_none());
    let (s, c) = start().advance(Reply::Inserted(Ok(stored(1))));
    assert_eq!(s.stage, Stage::Failed);
    assert!(c.is_none());
    let (s, _) = start().advance(Reply::Fetched(Err(FetchOneError::NotFound)));
    let (s, c) = s.advance(Reply::Inserted(Ok(stored(1))));
    assert_eq!(s.stage, Stage::Done);
    assert!(c.is_none());
}

#[test]
fn after_reconciliation_exactly_one_row_has_the_identifier() {
    let mut repo = InMemoryRepository::new();
    for (id, now) in [(7, 1), (443, 2), (9, 3), (443, 4), (7, 5), (443, 6)] {
        let profile = UserProfile { id, ..kent(Some("n"), "a") };
        assert!(reconcile(&mut repo, profile, Timestamp::at(now)).is_ok());
        let mut rows = 0;
        for i in 0..repo.len() {
            if repo.get(i).unwrap().id == id {
                rows += 1;
            }
        }
        assert_eq!(rows, 1);
    }
    assert_eq!(repo.len(), 3);
}

#[test]
fn the_last_profile_wins_and_the_creation_stays() {
    let mut repo = InMemoryRepository::new();
    let first = UserProfile { login: "first".to_string(), ..kent(Some("One"), "https://a/1") };
    let second = UserProfile { login: "second".to_string(), ..kent(None, "https://a/2") };
    let _ = reconcile(&mut repo, first, Timestamp::at(10));
    let created = repo.fetch_one(443).unwrap().created_at;
    let _ = reconcile(&mut repo, second, Timestamp::at(5));
    let row = repo.fetch_one(443).unwrap();
    assert_eq!(row.name, "");
    assert_eq!(row.avatar_url, "https://a/2");
    assert_eq!(row.created_at, created);
    assert_eq!(row.created_at, Timestamp::at(10));
    assert_eq!(row.updated_at, Timestamp::at(5));
    assert_eq!(row.login, "first");
}
