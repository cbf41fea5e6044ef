//! Adding an entry to a career.

use crate::domain::career::entity::{CareerEntity, CareerRecord, Date};
use crate::repositories::career::{InsertError, Repository};
use vstd::prelude::*;

verus! {

/// The entry to add, as it came in.
#[derive(Debug)]
pub struct Request {
    pub user_id: i64,
    pub company: String,
    pub job: String,
    pub in_at: Date,
    pub out_at: Option<Date>,
}

impl Request {
    /// The entry that the request asks to store.
    pub open spec fn record(&self) -> CareerRecord {
        CareerRecord {
            user_id: self.user_id as int,
            company: self.company@,
            job: self.job@,
            in_at: self.in_at,
            out_at: self.out_at,
        }
    }
}

/// What is told of the entry that was added.
pub struct Response {
    pub user_id: i64,
    pub company: String,
    pub job: String,
}

/// Why no entry was added.
#[derive(Debug, Clone, Copy, PartialEq, Eq, Structural)]
pub enum Error {
    Unknown,
}

/// Turns the answer of the store into the answer to the caller: the user,
/// the company and the job of the entry, or `Unknown` for any failure.
pub fn respond(outcome: Result<CareerEntity, InsertError>) -> (res: Result<Response, Error>)
    ensures
        match outcome {
            Ok(career) => res matches Ok(response) && response.user_id == career.user_id
                && response.company@ == career.company@ && response.job@ == career.job@,
            Err(_) => res is Err,
        },
{
    match outcome {
        Ok(career) => Ok(
            Response { user_id: career.user_id, company: career.company, job: career.job },
        ),
        Err(_) => Err(Error::Unknown),
    }
}

/// Asks the store to add the entry, and answers with what the store said. A
/// store that does what it is asked adds the entry behind the rest.
pub fn execute<R: Repository>(repo: &mut R, req: Request) -> (res: Result<Response, Error>)
    ensures
        final(repo).reliable() == old(repo).reliable(),
        old(repo).reliable() ==> final(repo).rows() == old(repo).rows().push(req.record()) && (
        res matches Ok(response) && response.user_id == req.user_id && response.company@
            == req.company@ && response.job@ == req.job@),
{
    let outcome = repo.insert(req.user_id, req.company, req.job, req.in_at, req.out_at);
    respond(outcome)
}

} // verus!
