//! Looking one user up.

use crate::domain::user::entity::{UserEntity, UserId, UserRecord};
use crate::repositories::user::{fetch_outcome, view_of, FetchOneError, Repository};
use vstd::prelude::*;

verus! {

/// The identifier of the user to look up, as it came in.
pub struct Request {
    pub id: i64,
}

/// What is told of the user that was found.
#[derive(Debug, PartialEq)]
pub struct Response {
    pub id: i64,
    pub login: String,
    pub name: String,
    pub avatar_url: String,
    pub email: Option<String>,
}

/// Why no user was found.
#[derive(Debug, Clone, Copy, PartialEq, Eq, Structural)]
pub enum Error {
    /// The identifier does not pass the check of its type.
    BadRequest,
    /// No user with this identifier is stored.
    NotFound,
    /// The store failed.
    Unknown,
}

/// What is told of a stored user: everything but the two instants.
pub open spec fn shown(user: UserRecord) -> (int, Seq<char>, Seq<char>, Seq<char>, Option<Seq<char>>) {
    (user.id, user.login, user.name, user.avatar_url, user.email)
}

/// What the answer of the store means to the caller, as plain values.
pub open spec fn answer(outcome: Result<UserRecord, FetchOneError>) -> Result<
    (int, Seq<char>, Seq<char>, Seq<char>, Option<Seq<char>>),
    Error,
> {
    match outcome {
        Ok(user) => Ok(shown(user)),
        Err(FetchOneError::NotFound) => Err(Error::NotFound),
        Err(FetchOneError::Unknown) => Err(Error::Unknown),
    }
}

/// A result of [`execute`] as plain values.
pub open spec fn told(res: Result<Response, Error>) -> Result<
    (int, Seq<char>, Seq<char>, Seq<char>, Option<Seq<char>>),
    Error,
> {
    match res {
        Ok(response) => Ok(
            (
                response.id as int,
                response.login@,
                response.name@,
                response.avatar_url@,
                match response.email {
                    Some(email) => Some(email@),
                    None => None,
                },
            ),
        ),
        Err(e) => Err(e),
    }
}

/// Turns the answer of the store into the answer to the caller.
pub fn respond(outcome: Result<UserEntity, FetchOneError>) -> (res: Result<Response, Error>)
    ensures
        told(res) == answer(view_of(outcome)),
{
    match outcome {
        Ok(user) => Ok(
            Response {
                id: user.id,
                login: user.login,
                name: user.name,
                avatar_url: user.avatar_url,
                email: user.email,
            },
        ),
        Err(FetchOneError::NotFound) => Err(Error::NotFound),
        Err(FetchOneError::Unknown) => Err(Error::Unknown),
    }
}

/// Checks the identifier and, if it is valid, asks the store for the user.
/// An invalid identifier is answered with `BadRequest` and never reaches the
/// store; a valid one is answered with what the store said.
pub fn execute<R: Repository>(repo: &R, req: Request) -> (res: Result<Response, Error>)
    ensures
        !UserId::accepts(req.id) ==> (res matches Err(Error::BadRequest)),
        UserId::accepts(req.id) ==> !(res matches Err(Error::BadRequest)),
        UserId::accepts(req.id) && repo.reliable() ==> told(res) == answer(
            fetch_outcome(repo.rows(), req.id as int),
        ),
{
    match UserId::try_from(req.id) {
        Ok(id) => respond(repo.fetch_one(i64::from(id))),
        Err(_) => Err(Error::BadRequest),
    }
}

} // verus!
