//! Listing the career of a user.

use crate::domain::career::entity::{CareerEntity, CareerRecord, Date};
use crate::repositories::career::{careers_of, records, FetchError, Repository};
use vstd::prelude::*;

verus! {

/// The user whose career is asked for.
pub struct Request {
    pub user_id: i32,
}

/// What is told of one entry: everything but the user.
#[derive(Debug)]
pub struct FetchCareerDto {
    company: String,
    job: String,
    in_at: Date,
    out_at: Option<Date>,
}

impl FetchCareerDto {
    fn new(company: String, job: String, in_at: Date, out_at: Option<Date>) -> (dto: Self)
        ensures
            dto.company@ == company@,
            dto.job@ == job@,
            dto.in_at == in_at,
            dto.out_at == out_at,
    {
        Self { company, job, in_at, out_at }
    }

    /// Whether this tells of `career`.
    pub closed spec fn tells(&self, career: CareerRecord) -> bool {
        &&& self.company@ == career.company
        &&& self.job@ == career.job
        &&& self.in_at == career.in_at
        &&& self.out_at == career.out_at
    }

    /// The company.
    pub fn company(&self) -> (res: &str)
        ensures
            forall|career: CareerRecord| self.tells(career) ==> res@ == career.company,
    {
        self.company.as_str()
    }

    /// The job.
    pub fn job(&self) -> (res: &str)
        ensures
            forall|career: CareerRecord| self.tells(career) ==> res@ == career.job,
    {
        self.job.as_str()
    }

    /// The day on which the job began.
    pub fn in_at(&self) -> (res: Date)
        ensures
            forall|career: CareerRecord| self.tells(career) ==> res == career.in_at,
    {
        self.in_at
    }

    /// The day on which the job ended, if it has.
    pub fn out_at(&self) -> (res: Option<Date>)
        ensures
            forall|career: CareerRecord| self.tells(career) ==> res == career.out_at,
    {
        self.out_at
    }
}

/// The career of a user.
pub struct Response {
    pub careers: Vec<FetchCareerDto>,
}

/// Why no career was given.
#[derive(Debug, Clone, Copy, PartialEq, Eq, Structural)]
pub enum Error {
    BadRequest,
    Unknown,
}

/// Whether `told` tells of the entries `careers`, one for one and in the
/// same order.
pub open spec fn tells_all(told: Seq<FetchCareerDto>, careers: Seq<CareerRecord>) -> bool {
    &&& told.len() == careers.len()
    &&& forall|i: int| 0 <= i < told.len() ==> (#[trigger] told[i]).tells(careers[i])
}

/// Turns the answer of the store into the answer to the caller: what is told
/// of each entry, in the order of the answer, or `Unknown` for any failure.
pub fn respond(outcome: Result<Vec<CareerEntity>, FetchError>) -> (res: Result<Response, Error>)
    ensures
        match outcome {
            Ok(careers) => res matches Ok(response) && tells_all(
                response.careers@,
                records(careers@),
            ),
            Err(_) => res == Err::<Response, Error>(Error::Unknown),
        },
{
    match outcome {
        Ok(careers) => {
            let mut told: Vec<FetchCareerDto> = Vec::new();
            let mut i: usize = 0;
            while i < careers.len()
                invariant
                    i <= careers.len(),
                    told@.len() == i,
                    forall|j: int| 0 <= j < i ==> (#[trigger] told@[j]).tells(careers@[j]@),
                decreases careers.len() - i,
            {
                let career = &careers[i];
                told.push(
                    FetchCareerDto::new(
                        career.company.clone(),
                        career.job.clone(),
                        career.in_at,
                        career.out_at,
                    ),
                );
                i += 1;
            }
            Ok(Response { careers: told })
        },
        Err(_) => Err(Error::Unknown),
    }
}

/// Asks the store for the career of the user, and answers with what the
/// store said. A store that does what it is asked gives the entries of the
/// user in the order in which it holds them.
pub fn execute<R: Repository>(repo: &R, req: Request) -> (res: Result<Response, Error>)
    ensures
        !(res matches Err(Error::BadRequest)),
        repo.reliable() ==> (res matches Ok(response) && tells_all(
            response.careers@,
            careers_of(repo.rows(), req.user_id as int),
        )),
{
    respond(repo.find_by_user_id(req.user_id as i64))
}

} // verus!
