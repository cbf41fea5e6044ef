//! Storing a new user.

use crate::domain::user::entity::{
    Timestamp, UserAvatar, UserEntity, UserId, UserLogin, UserName, UserRecord,
};
use crate::repositories::user::{insert_outcome, view_of, InsertError, Repository};
use vstd::prelude::*;

verus! {

/// The values of the user to store, as they came in.
pub struct Request {
    pub id: i64,
    pub login: String,
    pub name: String,
    pub avatar_url: String,
}

impl Request {
    /// Whether each value passes the check of its type.
    pub open spec fn valid(&self) -> bool {
        &&& UserId::accepts(self.id)
        &&& UserLogin::accepts(self.login@)
        &&& UserName::accepts(self.name@)
        &&& UserAvatar::accepts(self.avatar_url@)
    }

    /// The row that a valid request asks to store at `now`.
    pub open spec fn record(&self, now: Timestamp) -> UserRecord {
        UserRecord::created(self.id as int, self.login@, self.name@, self.avatar_url@, now)
    }
}

/// What is told of the user that was stored.
#[derive(Debug)]
pub struct Response {
    pub name: String,
    pub email: Option<String>,
}

/// Why no user was stored.
#[derive(Debug, Clone, Copy, PartialEq, Eq, Structural)]
pub enum Error {
    /// A value of the request does not pass the check of its type.
    BadRequest,
    /// A user with this identifier is stored already.
    Conflict,
    /// The store failed.
    Unknown,
}

/// What the answer of the store means to the caller, as plain values: the
/// name and the address of the stored user, or the error under its own name.
pub open spec fn answer(outcome: Result<UserRecord, InsertError>) -> Result<
    (Seq<char>, Option<Seq<char>>),
    Error,
> {
    match outcome {
        Ok(user) => Ok((user.name, user.email)),
        Err(InsertError::Conflict) => Err(Error::Conflict),
        Err(InsertError::Unknown) => Err(Error::Unknown),
    }
}

/// A result of [`execute`] as plain values.
pub open spec fn told(res: Result<Response, Error>) -> Result<(Seq<char>, Option<Seq<char>>), Error> {
    match res {
        Ok(response) => Ok(
            (
                response.name@,
                match response.email {
                    Some(email) => Some(email@),
                    None => None,
                },
            ),
        ),
        Err(e) => Err(e),
    }
}

/// Turns the answer of the store into the answer to the caller.
pub fn respond(outcome: Result<UserEntity, InsertError>) -> (res: Result<Response, Error>)
    ensures
        told(res) == answer(view_of(outcome)),
{
    match outcome {
        Ok(user) => Ok(Response { name: user.name, email: user.email }),
        Err(InsertError::Conflict) => Err(Error::Conflict),
        Err(InsertError::Unknown) => Err(Error::Unknown),
    }
}

/// Checks the request and, if it is valid, asks the store to insert the
/// user. An invalid request is answered with `BadRequest` and never reaches
/// the store; a valid one is answered with what the store said.
pub fn execute<R: Repository>(repo: &mut R, req: Request, now: Timestamp) -> (res: Result<
    Response,
    Error,
>)
    ensures
        !req.valid() ==> (res matches Err(Error::BadRequest)) && *final(repo) == *old(repo),
        req.valid() ==> !(res matches Err(Error::BadRequest)),
        final(repo).reliable() == old(repo).reliable(),
        req.valid() && old(repo).reliable() ==> told(res) == answer(
            insert_outcome(old(repo).rows(), req.record(now)).0,
        ) && final(repo).rows() == insert_outcome(old(repo).rows(), req.record(now)).1,
{
    match (
        UserId::try_from(req.id),
        UserLogin::try_from(req.login),
        UserName::try_from(req.name),
        UserAvatar::try_from(req.avatar_url),
    ) {
        (Ok(id), Ok(login), Ok(name), Ok(avatar_url)) => {
            let outcome = repo.insert(UserEntity::new(id, login, name, avatar_url, now));
            respond(outcome)
        },
        _ => Err(Error::BadRequest),
    }
}

} // verus!
