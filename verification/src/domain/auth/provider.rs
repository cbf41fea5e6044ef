//! The registry of identity providers.
//!
//! A provider is set up by five values of the environment. The registry
//! looks at them once, the first time a provider is asked for, and keeps
//! what it found, good or bad, from then on.

use crate::domain::auth::entity::OAuthProvider;
use vstd::prelude::*;
use vstd::string::*;

verus! {

/// Whether `text` is an address that `url::Url::parse` accepts.
pub uninterp spec fn url_parses(text: Seq<char>) -> bool;

/// Calls `url::Url::parse`, which the types of `oauth2` that hold an address
/// go through, and says whether it accepted `text`. The rules of that parser
/// are not written out here: its verdict goes by the name [`url_parses`].
#[verifier::external_body]
fn parses_as_url(text: &str) -> (ok: bool)
    ensures
        ok == url_parses(text@),
{
    oauth2::url::Url::parse(text).is_ok()
}

/// The values of the environment that set a provider up, each as it was
/// found: `None` where the variable is not set.
#[derive(Debug)]
pub struct Environment {
    pub github_client_id: Option<String>,
    pub github_client_secret: Option<String>,
    pub github_auth_url: Option<String>,
    pub github_token_url: Option<String>,
    pub github_redirect_url: Option<String>,
}

/// The variables of the environment that the registry reads.
#[derive(Debug, Clone, Copy, PartialEq, Eq, Structural)]
pub enum Variable {
    GithubClientId,
    GithubClientSecret,
    GithubAuthUrl,
    GithubTokenUrl,
    GithubRedirectUrl,
}

impl Variable {
    /// The name of the variable in the environment.
    pub open spec fn label(self) -> Seq<char> {
        match self {
            Variable::GithubClientId => "GITHUB_CLIENT_ID"@,
            Variable::GithubClientSecret => "GITHUB_CLIENT_SECRET"@,
            Variable::GithubAuthUrl => "GITHUB_AUTH_URL"@,
            Variable::GithubTokenUrl => "GITHUB_TOKEN_URL"@,
            Variable::GithubRedirectUrl => "GITHUB_REDIRECT_URL"@,
        }
    }

    /// The name of the variable in the environment.
    pub fn name(&self) -> (res: &'static str)
        ensures
            res@ == self.label(),
    {
        match self {
            Variable::GithubClientId => "GITHUB_CLIENT_ID",
            Variable::GithubClientSecret => "GITHUB_CLIENT_SECRET",
            Variable::GithubAuthUrl => "GITHUB_AUTH_URL",
            Variable::GithubTokenUrl => "GITHUB_TOKEN_URL",
            Variable::GithubRedirectUrl => "GITHUB_REDIRECT_URL",
        }
    }
}

/// What is wrong with the environment.
#[derive(Debug, Clone, Copy, PartialEq, Eq, Structural)]
pub enum Misconfigured {
    /// The variable is not set.
    Missing(Variable),
    /// The variable does not hold an address.
    InvalidUrl(Variable),
}

/// The milliseconds that a request to a provider may take unless the
/// configuration says otherwise.
pub const DEFAULT_TIMEOUT_MILLIS: u64 = 10_000;

/// A provider's configuration as plain values.
pub struct ConfigView {
    pub provider: OAuthProvider,
    pub client_id: Seq<char>,
    pub client_secret: Seq<char>,
    pub auth_url: Seq<char>,
    pub token_url: Seq<char>,
    pub redirect_url: Seq<char>,
    pub scopes: Seq<Seq<char>>,
    pub timeout_millis: u64,
}

/// The scopes that are asked of GitHub: to read the user, and their
/// addresses.
pub open spec fn github_scopes() -> Seq<Seq<char>> {
    seq!["read:user"@, "user:email"@]
}

/// A value of the environment as plain values.
pub open spec fn found(value: Option<String>) -> Option<Seq<char>> {
    match value {
        Some(text) => Some(text@),
        None => None,
    }
}

/// What the environment makes of GitHub.
///
/// The variables are looked at in the order client id, client secret,
/// authorization address, token address, redirect address; the first that is
/// missing, or that should hold an address and does not, is what is wrong.
pub open spec fn github_from(environment: Environment) -> Result<ConfigView, Misconfigured> {
    if environment.github_client_id is None {
        Err(Misconfigured::Missing(Variable::GithubClientId))
    } else if environment.github_client_secret is None {
        Err(Misconfigured::Missing(Variable::GithubClientSecret))
    } else if environment.github_auth_url is None {
        Err(Misconfigured::Missing(Variable::GithubAuthUrl))
    } else if !url_parses(environment.github_auth_url->0@) {
        Err(Misconfigured::InvalidUrl(Variable::GithubAuthUrl))
    } else if environment.github_token_url is None {
        Err(Misconfigured::Missing(Variable::GithubTokenUrl))
    } else if !url_parses(environment.github_token_url->0@) {
        Err(Misconfigured::InvalidUrl(Variable::GithubTokenUrl))
    } else if environment.github_redirect_url is None {
        Err(Misconfigured::Missing(Variable::GithubRedirectUrl))
    } else if !url_parses(environment.github_redirect_url->0@) {
        Err(Misconfigured::InvalidUrl(Variable::GithubRedirectUrl))
    } else {
        Ok(
            ConfigView {
                provider: OAuthProvider::Github,
                client_id: environment.github_client_id->0@,
                client_secret: environment.github_client_secret->0@,
                auth_url: environment.github_auth_url->0@,
                token_url: environment.github_token_url->0@,
                redirect_url: environment.github_redirect_url->0@,
                scopes: github_scopes(),
                timeout_millis: DEFAULT_TIMEOUT_MILLIS,
            },
        )
    }
}

/// The configuration of a provider: where to send the user, where to
/// exchange the code, where the user comes back to, and as whom the service
/// speaks. Its three addresses are addresses.
#[derive(Debug)]
pub struct ProviderConfig {
    provider: OAuthProvider,
    client_id: String,
    client_secret: String,
    auth_url: String,
    token_url: String,
    redirect_url: String,
    scopes: Vec<String>,
    timeout_millis: u64,
}

impl View for ProviderConfig {
    type V = ConfigView;

    closed spec fn view(&self) -> ConfigView {
        ConfigView {
            provider: self.provider,
            client_id: self.client_id@,
            client_secret: self.client_secret@,
            auth_url: self.auth_url@,
            token_url: self.token_url@,
            redirect_url: self.redirect_url@,
            scopes: Seq::new(self.scopes@.len(), |i: int| self.scopes@[i]@),
            timeout_millis: self.timeout_millis,
        }
    }
}

impl ConfigView {
    /// Whether the three addresses are addresses.
    pub open spec fn well_formed(self) -> bool {
        url_parses(self.auth_url) && url_parses(self.token_url) && url_parses(self.redirect_url)
    }
}

impl Clone for ProviderConfig {
    fn clone(&self) -> (res: Self)
        ensures
            res@ == self@,
    {
        proof {
            use_type_invariant(self);
        }
        let mut scopes: Vec<String> = Vec::new();
        let mut i: usize = 0;
        while i < self.scopes.len()
            invariant
                i <= self.scopes.len(),
                scopes@.len() == i,
                forall|j: int| 0 <= j < i ==> scopes@[j]@ == self.scopes@[j]@,
            decreases self.scopes.len() - i,
        {
            scopes.push(self.scopes[i].clone());
            i += 1;
        }
        let res = ProviderConfig {
            provider: self.provider,
            client_id: self.client_id.clone(),
            client_secret: self.client_secret.clone(),
            auth_url: self.auth_url.clone(),
            token_url: self.token_url.clone(),
            redirect_url: self.redirect_url.clone(),
            scopes,
            timeout_millis: self.timeout_millis,
        };
        assert(res@.scopes =~= self@.scopes);
        res
    }
}

impl ProviderConfig {
    #[verifier::type_invariant]
    spec fn inv(self) -> bool {
        self@.well_formed()
    }

    /// What the environment makes of GitHub, as [`github_from`] rules.
    pub fn github(environment: &Environment) -> (res: Result<Self, Misconfigured>)
        ensures
            match res {
                Ok(config) => github_from(*environment) == Ok::<ConfigView, Misconfigured>(config@),
                Err(e) => github_from(*environment) == Err::<ConfigView, Misconfigured>(e),
            },
    {
        let client_id = match &environment.github_client_id {
            Some(value) => value.clone(),
            None => return Err(Misconfigured::Missing(Variable::GithubClientId)),
        };
        let client_secret = match &environment.github_client_secret {
            Some(value) => value.clone(),
            None => return Err(Misconfigured::Missing(Variable::GithubClientSecret)),
        };
        let auth_url = match &environment.github_auth_url {
            Some(value) => value.clone(),
            None => return Err(Misconfigured::Missing(Variable::GithubAuthUrl)),
        };
        if !parses_as_url(auth_url.as_str()) {
            return Err(Misconfigured::InvalidUrl(Variable::GithubAuthUrl));
        }
        let token_url = match &environment.github_token_url {
            Some(value) => value.clone(),
            None => return Err(Misconfigured::Missing(Variable::GithubTokenUrl)),
        };
        if !parses_as_url(token_url.as_str()) {
            return Err(Misconfigured::InvalidUrl(Variable::GithubTokenUrl));
        }
        let redirect_url = match &environment.github_redirect_url {
            Some(value) => value.clone(),
            None => return Err(Misconfigured::Missing(Variable::GithubRedirectUrl)),
        };
        if !parses_as_url(redirect_url.as_str()) {
            return Err(Misconfigured::InvalidUrl(Variable::GithubRedirectUrl));
        }
        let mut scopes: Vec<String> = Vec::new();
        scopes.push("read:user".to_owned());
        scopes.push("user:email".to_owned());
        let config = ProviderConfig {
            provider: OAuthProvider::Github,
            client_id,
            client_secret,
            auth_url,
            token_url,
            redirect_url,
            scopes,
            timeout_millis: DEFAULT_TIMEOUT_MILLIS,
        };
        assert(config@.scopes =~= github_scopes());
        Ok(config)
    }

    /// The same configuration with another limit on the time that a request
    /// to the provider may take.
    pub fn with_timeout(self, timeout_millis: u64) -> (res: Self)
        ensures
            res@ == (ConfigView { timeout_millis, ..self@ }),
    {
        proof {
            use_type_invariant(&self);
        }
        ProviderConfig {
            provider: self.provider,
            client_id: self.client_id,
            client_secret: self.client_secret,
            auth_url: self.auth_url,
            token_url: self.token_url,
            redirect_url: self.redirect_url,
            scopes: self.scopes,
            timeout_millis,
        }
    }

    /// The provider that is configured.
    pub fn provider(&self) -> (res: OAuthProvider)
        ensures
            res == self@.provider,
    {
        self.provider
    }

    /// The name under which the service is known to the provider.
    pub fn client_id(&self) -> (res: &str)
        ensures
            res@ == self@.client_id,
    {
        self.client_id.as_str()
    }

    /// The secret that the service shares with the provider.
    pub fn client_secret(&self) -> (res: &str)
        ensures
            res@ == self@.client_secret,
    {
        self.client_secret.as_str()
    }

    /// Where the user is sent to sign in.
    pub fn auth_url(&self) -> (res: &str)
        ensures
            res@ == self@.auth_url,
            url_parses(res@),
    {
        proof {
            use_type_invariant(self);
        }
        self.auth_url.as_str()
    }

    /// Where an authorization code is exchanged for an access token.
    pub fn token_url(&self) -> (res: &str)
        ensures
            res@ == self@.token_url,
            url_parses(res@),
    {
        proof {
            use_type_invariant(self);
        }
        self.token_url.as_str()
    }

    /// Where the provider sends the user back to.
    pub fn redirect_url(&self) -> (res: &str)
        ensures
            res@ == self@.redirect_url,
            url_parses(res@),
    {
        proof {
            use_type_invariant(self);
        }
        self.redirect_url.as_str()
    }

    /// What is asked of the provider on the user's behalf.
    pub fn scopes(&self) -> (res: &Vec<String>)
        ensures
            res@.len() == self@.scopes.len(),
            forall|i: int| 0 <= i < res@.len() ==> res@[i]@ == self@.scopes[i],
    {
        &self.scopes
    }

    /// The milliseconds that a request to the provider may take.
    pub fn timeout_millis(&self) -> (res: u64)
        ensures
            res == self@.timeout_millis,
    {
        self.timeout_millis
    }
}

/// Why no configuration was given out.
#[derive(Debug, Clone, Copy, PartialEq, Eq, Structural)]
pub enum RegistryError {
    /// No provider goes by this name.
    BadRequest,
    /// The environment does not set the provider up.
    Misconfigured(Misconfigured),
}

/// The registry of providers: it has not looked at the environment yet, or
/// it holds what it found there.
#[derive(Debug)]
pub enum Registry {
    Unread,
    Ready(ProviderConfig),
    Broken(Misconfigured),
}

/// A registry as plain values.
pub enum RegistryView {
    Unread,
    Ready(ConfigView),
    Broken(Misconfigured),
}

impl RegistryView {
    /// The registry once it has looked at the environment: one that had
    /// looked before is what it was.
    pub open spec fn read(self, environment: Environment) -> RegistryView {
        match self {
            RegistryView::Unread => match github_from(environment) {
                Ok(config) => RegistryView::Ready(config),
                Err(e) => RegistryView::Broken(e),
            },
            _ => self,
        }
    }

    /// What a registry that has looked at the environment answers when it is
    /// asked for a provider it knows. One that has not looked has no answer.
    pub open spec fn answer(self) -> Option<Result<ConfigView, RegistryError>> {
        match self {
            RegistryView::Ready(config) => Some(Ok(config)),
            RegistryView::Broken(e) => Some(Err(RegistryError::Misconfigured(e))),
            RegistryView::Unread => None,
        }
    }
}

impl View for Registry {
    type V = RegistryView;

    open spec fn view(&self) -> RegistryView {
        match self {
            Registry::Unread => RegistryView::Unread,
            Registry::Ready(config) => RegistryView::Ready(config@),
            Registry::Broken(e) => RegistryView::Broken(*e),
        }
    }
}

/// A result of [`Registry::resolve`] as plain values.
pub open spec fn resolved(res: Result<ProviderConfig, RegistryError>) -> Result<
    ConfigView,
    RegistryError,
> {
    match res {
        Ok(config) => Ok(config@),
        Err(e) => Err(e),
    }
}

impl Registry {
    /// A registry that has not looked at the environment.
    pub fn new() -> (res: Self)
        ensures
            res@ == RegistryView::Unread,
    {
        Registry::Unread
    }

    /// The configuration of the provider that goes by `provider`.
    ///
    /// A name that no provider goes by is refused, and the environment is
    /// not looked at for it. For a known name the registry looks at
    /// `environment` if it never did, and answers from what it holds then:
    /// so every call after the first has the answer of the first, whatever
    /// the environment has become.
    pub fn resolve(&mut self, provider: &str, environment: &Environment) -> (res: Result<
        ProviderConfig,
        RegistryError,
    >)
        ensures
            OAuthProvider::named(provider@) is None ==> final(self)@ == old(self)@ && resolved(res)
                == Err::<ConfigView, RegistryError>(RegistryError::BadRequest),
            OAuthProvider::named(provider@) is Some ==> final(self)@ == old(self)@.read(*environment)
                && Some(resolved(res)) == final(self)@.answer(),
    {
        match OAuthProvider::try_from(provider.to_owned()) {
            Err(_) => Err(RegistryError::BadRequest),
            Ok(OAuthProvider::Github) => {
                if let Registry::Unread = self {
                    *self = match ProviderConfig::github(environment) {
                        Ok(config) => Registry::Ready(config),
                        Err(e) => Registry::Broken(e),
                    };
                }
                match self {
                    Registry::Ready(config) => Ok(config.clone()),
                    Registry::Broken(e) => Err(RegistryError::Misconfigured(*e)),
                    Registry::Unread => Err(RegistryError::BadRequest),
                }
            },
        }
    }
}

} // verus!
