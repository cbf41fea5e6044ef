//! Writing a new name and avatar for a user.

use crate::domain::user::entity::{Timestamp, UserAvatar, UserId, UserName};
use crate::repositories::user::{update_outcome, Repository};
use vstd::prelude::*;

verus! {

/// The identifier of the user and the new values, as they came in.
#[derive(Debug)]
pub struct Request {
    pub id: i64,
    pub name: String,
    pub avatar_url: String,
}

impl Request {
    /// Whether each value passes the check of its type.
    pub open spec fn valid(&self) -> bool {
        &&& UserId::accepts(self.id)
        &&& UserName::accepts(self.name@)
        &&& UserAvatar::accepts(self.avatar_url@)
    }
}

/// The values of a valid request as the store takes them.
pub struct Update {
    pub id: i64,
    pub name: String,
    pub avatar_url: String,
}

/// Checks the request: a valid one gives its values, any other fails.
pub fn check(req: Request) -> (res: Result<Update, ()>)
    ensures
        res is Ok <==> req.valid(),
        res matches Ok(update) ==> update.id == req.id && update.name@ == req.name@
            && update.avatar_url@ == req.avatar_url@,
{
    match (
        UserId::try_from(req.id),
        UserName::try_from(req.name),
        UserAvatar::try_from(req.avatar_url),
    ) {
        (Ok(id), Ok(name), Ok(avatar_url)) => Ok(
            Update {
                id: i64::from(id),
                name: String::from(name),
                avatar_url: String::from(avatar_url),
            },
        ),
        _ => Err(()),
    }
}

/// Checks the request and, if it is valid, asks the store to write the new
/// name and avatar. An invalid request fails and never reaches the store; a
/// valid one succeeds exactly when the store says so.
pub fn execute<R: Repository>(repo: &mut R, req: Request, now: Timestamp) -> (res: Result<(), ()>)
    ensures
        !req.valid() ==> res is Err && *final(repo) == *old(repo),
        final(repo).reliable() == old(repo).reliable(),
        req.valid() && old(repo).reliable() ==> {
            let outcome = update_outcome(old(repo).rows(), req.id as int, req.name@, req.avatar_url@, now);
            &&& res is Ok <==> outcome.0 is Ok
            &&& final(repo).rows() == outcome.1
        },
{
    match check(req) {
        Ok(update) => match repo.update(update.id, update.name, update.avatar_url, now) {
            Ok(_) => Ok(()),
            Err(_) => Err(()),
        },
        Err(_) => Err(()),
    }
}

} // verus!
