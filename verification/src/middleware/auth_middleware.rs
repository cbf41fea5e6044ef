//! The guard: no request reaches its handler without a session, unless it
//! asks what every request may ask.
//!
//! The guard sees of a request its method, its path and its `Authorization`
//! header, and decides. The handler is called, or the answer 401 is sent, by
//! whoever holds the request.

use crate::domain::auth::entity::{ClaimSet, Claims};
use crate::domain::auth::payload::claims_view;
use crate::domain::auth::session::{bears, session_of, verify_session, SessionConfig};
use crate::text::starts_with;
use vstd::prelude::*;
use vstd::string::*;
use vstd::utf8::*;

verus! {

/// The path on which a sign-in begins.
pub const AUTHORIZATION_ROUTE: &'static str = "/authorization/code";

/// The path on which a sign-in ends.
pub const SIGNIN_ROUTE: &'static str = "/signin";

/// The method that asks what a resource allows.
pub const OPTIONS: &'static str = "OPTIONS";

/// The status of the answer to a request that is turned away.
pub const UNAUTHORIZED: u16 = 401;

/// Whether a path needs no session: it begins with the path on which a
/// sign-in begins or with the one on which it ends.
pub open spec fn is_exempt(path: Seq<char>) -> bool {
    AUTHORIZATION_ROUTE@.is_prefix_of(path) || SIGNIN_ROUTE@.is_prefix_of(path)
}

/// What the guard decides.
#[derive(Debug)]
pub enum Decision {
    /// The handler is called; `claims` is the session of the request, where
    /// the request had to show one.
    Passed { claims: Option<Claims> },
    /// The handler is not called, and the answer has this status and body.
    Rejected { status: u16, body: String },
}

/// A decision as plain values.
pub enum DecisionView {
    Passed { claims: Option<ClaimSet> },
    Rejected { status: u16, body: Seq<char> },
}

impl View for Decision {
    type V = DecisionView;

    open spec fn view(&self) -> DecisionView {
        match self {
            Decision::Passed { claims } => DecisionView::Passed { claims: claims_view(*claims) },
            Decision::Rejected { status, body } => DecisionView::Rejected {
                status: *status,
                body: body@,
            },
        }
    }
}

/// The answer to a request that is turned away: 401, with nothing in it.
pub open spec fn turned_away() -> DecisionView {
    DecisionView::Rejected { status: UNAUTHORIZED, body: Seq::empty() }
}

/// The rule of the guard.
///
/// A request with the method `OPTIONS` passes, and so does one for an
/// exempt path; neither is asked for a session. Any other request passes
/// exactly if its `Authorization` header is a token that stands for a
/// session under `secret` at `now_millis`, and then the claims of that
/// session go with it. A request without the header, or with an empty one,
/// is turned away like one with a bad token.
pub open spec fn rule(
    method: Seq<char>,
    path: Seq<char>,
    authorization: Option<Seq<char>>,
    secret: Seq<u8>,
    now_millis: u64,
) -> DecisionView {
    if method == OPTIONS@ || is_exempt(path) {
        DecisionView::Passed { claims: None }
    } else {
        match authorization {
            None => turned_away(),
            Some(token) => if token.len() == 0 {
                turned_away()
            } else {
                match session_of(token, secret, now_millis) {
                    Some(claims) => DecisionView::Passed { claims: Some(claims) },
                    None => turned_away(),
                }
            },
        }
    }
}

/// A request with the method `OPTIONS`, or for a path that begins with the
/// path of an exempt route, passes whatever its `Authorization` header is.
pub proof fn lemma_exempt_passes(
    method: Seq<char>,
    path: Seq<char>,
    rest: Seq<char>,
    authorization: Option<Seq<char>>,
    secret: Seq<u8>,
    now_millis: u64,
)
    requires
        method == OPTIONS@ || path == AUTHORIZATION_ROUTE@ + rest || path == SIGNIN_ROUTE@ + rest,
    ensures
        rule(method, path, authorization, secret, now_millis) == (DecisionView::Passed {
            claims: None,
        }),
{
    assert((AUTHORIZATION_ROUTE@ + rest).subrange(0, AUTHORIZATION_ROUTE@.len() as int)
        =~= AUTHORIZATION_ROUTE@);
    assert((SIGNIN_ROUTE@ + rest).subrange(0, SIGNIN_ROUTE@.len() as int) =~= SIGNIN_ROUTE@);
}

/// A request that is not exempt passes exactly if its `Authorization` header
/// is a token that stands for a session; any other is answered with 401 and
/// an empty body.
pub proof fn lemma_guarded(
    method: Seq<char>,
    path: Seq<char>,
    authorization: Option<Seq<char>>,
    secret: Seq<u8>,
    now_millis: u64,
)
    requires
        method != OPTIONS@,
        !is_exempt(path),
    ensures
        ({
            let decision = rule(method, path, authorization, secret, now_millis);
            let valid = authorization is Some && session_of(authorization->0, secret, now_millis) is Some;
            &&& decision is Passed <==> valid
            &&& valid ==> decision == (DecisionView::Passed {
                claims: session_of(authorization->0, secret, now_millis),
            })
            &&& !valid ==> decision == turned_away()
        }),
{
    if authorization is Some && authorization->0.len() == 0 {
        lemma_empty_token(secret, now_millis);
    }
}

/// The empty text stands for no session.
pub proof fn lemma_empty_token(secret: Seq<u8>, now_millis: u64)
    ensures
        session_of(Seq::empty(), secret, now_millis) is None,
{
    reveal_with_fuel(crate::text::last_index_of, 1);
}

/// Whether two texts are the same.
fn same_text(a: &str, b: &str) -> (same: bool)
    ensures
        same == (a@ == b@),
{
    a.to_owned() == b.to_owned()
}

/// Makes the guard of a service.
#[derive(Debug)]
pub struct Authentication {
    pub config: SessionConfig,
}

impl Authentication {
    /// The guard for the sessions signed under `config`.
    pub fn new_transform(&self) -> (guard: AuthenticationMiddleware)
        ensures
            guard.secret@ == self.config.secret@,
    {
        AuthenticationMiddleware { secret: self.config.secret.clone() }
    }
}

/// The guard of a service.
#[derive(Debug)]
pub struct AuthenticationMiddleware {
    pub secret: Vec<u8>,
}

impl AuthenticationMiddleware {
    /// Decides on a request at `now_millis`, in milliseconds since the Unix
    /// epoch, as [`rule`] rules.
    ///
    /// A request that is not exempt and bears what the service signed for
    /// some claims under the secret of the guard passes with those claims
    /// until their session ends, and is turned away from then on.
    pub fn call(&self, method: &str, path: &str, authorization: Option<&str>, now_millis: u64) -> (decision:
        Decision)
        ensures
            decision@ == rule(
                method@,
                path@,
                match authorization {
                    Some(token) => Some(token@),
                    None => None,
                },
                self.secret@,
                now_millis,
            ),
            authorization matches Some(token) ==> (forall|claims: ClaimSet| #[trigger]
                bears(token@, claims, self.secret@) && claims.exp <= u128::MAX && i64::MIN
                    <= claims.user.id <= i64::MAX && method@ != OPTIONS@ && !is_exempt(path@)
                    ==> decision@ == if claims.exp > now_millis {
                    DecisionView::Passed { claims: Some(claims) }
                } else {
                    turned_away()
                }),
    {
        proof {
            reveal_strlit("/authorization/code");
            reveal_strlit("/signin");
            assert(is_ascii_chars(AUTHORIZATION_ROUTE@));
            assert(is_ascii_chars(SIGNIN_ROUTE@));
        }
        if same_text(method, OPTIONS) || starts_with(path, AUTHORIZATION_ROUTE) || starts_with(
            path,
            SIGNIN_ROUTE,
        ) {
            return Decision::Passed { claims: None };
        }
        let token = match authorization {
            Some(token) => token,
            None => return Decision::Rejected { status: UNAUTHORIZED, body: String::new() },
        };
        if token.is_empty() {
            return Decision::Rejected { status: UNAUTHORIZED, body: String::new() };
        }
        match verify_session(token, self.secret.as_slice(), now_millis) {
            Some(claims) => Decision::Passed { claims: Some(claims) },
            None => Decision::Rejected { status: UNAUTHORIZED, body: String::new() },
        }
    }
}

} // verus!
