//! The store of careers.
//!
//! A store holds the entries in the order in which they came. What its two
//! operations do is given by spec functions: an insert puts the entry behind
//! the rest, and a search gives the entries of one user in the order of the
//! store. A store that is [`Repository::reliable`] follows them;
//! [`InMemoryRepository`] does.

use crate::domain::career::entity::{CareerEntity, CareerRecord, Date};
use vstd::prelude::*;

verus! {

/// Why an entry was not inserted.
#[derive(Debug, Clone, Copy, PartialEq, Eq, Structural)]
pub enum InsertError {
    Conflict,
    Unknown,
}

/// Why no entries were given.
#[derive(Debug, Clone, Copy, PartialEq, Eq, Structural)]
pub enum FetchError {
    NotFound,
    Unknown,
}

/// The entries of the user `user_id` among `rows`, in the order of `rows`.
pub open spec fn careers_of(rows: Seq<CareerRecord>, user_id: int) -> Seq<CareerRecord>
    decreases rows.len(),
{
    if rows.len() == 0 {
        Seq::empty()
    } else if rows.last().user_id == user_id {
        careers_of(rows.drop_last(), user_id).push(rows.last())
    } else {
        careers_of(rows.drop_last(), user_id)
    }
}

/// Entries as plain values.
pub open spec fn records(careers: Seq<CareerEntity>) -> Seq<CareerRecord> {
    Seq::new(careers.len(), |i: int| careers[i]@)
}

/// A store of careers.
pub trait Repository {
    /// The entries that the store holds, oldest first.
    spec fn rows(&self) -> Seq<CareerRecord>;

    /// Whether the store does what it is asked. Of a store that does not,
    /// nothing is known.
    spec fn reliable(&self) -> bool;

    /// Inserts an entry.
    fn insert(
        &mut self,
        user_id: i64,
        company: String,
        job: String,
        in_at: Date,
        out_at: Option<Date>,
    ) -> (res: Result<CareerEntity, InsertError>)
        ensures
            final(self).reliable() == old(self).reliable(),
            old(self).reliable() ==> (res matches Ok(career) && career@ == (CareerRecord {
                user_id: user_id as int,
                company: company@,
                job: job@,
                in_at,
                out_at,
            }) && final(self).rows() == old(self).rows().push(career@)),
    ;

    /// Gives the entries of one user.
    fn find_by_user_id(&self, user_id: i64) -> (res: Result<Vec<CareerEntity>, FetchError>)
        ensures
            self.reliable() ==> (res matches Ok(careers) && records(careers@) == careers_of(
                self.rows(),
                user_id as int,
            )),
    ;
}

/// A store that keeps its entries in memory.
pub struct InMemoryRepository {
    error: bool,
    careers: Vec<CareerEntity>,
}

impl InMemoryRepository {
    /// A store without entries.
    pub fn new() -> (repo: Self)
        ensures
            repo.rows() == Seq::<CareerRecord>::empty(),
            repo.reliable(),
    {
        let repo = InMemoryRepository { error: false, careers: Vec::new() };
        assert(repo.rows() =~= Seq::<CareerRecord>::empty());
        repo
    }

    /// How many entries the store holds.
    pub fn len(&self) -> (n: usize)
        ensures
            n == self.rows().len(),
    {
        self.careers.len()
    }
}

impl Repository for InMemoryRepository {
    closed spec fn rows(&self) -> Seq<CareerRecord> {
        records(self.careers@)
    }

    open spec fn reliable(&self) -> bool {
        true
    }

    fn insert(
        &mut self,
        user_id: i64,
        company: String,
        job: String,
        in_at: Date,
        out_at: Option<Date>,
    ) -> (res: Result<CareerEntity, InsertError>) {
        let career = CareerEntity::new(user_id, company, job, in_at, out_at);
        let ghost before = self.rows();
        self.careers.push(career.clone());
        assert(self.rows() =~= before.push(career@));
        Ok(career)
    }

    fn find_by_user_id(&self, user_id: i64) -> (res: Result<Vec<CareerEntity>, FetchError>) {
        let mut found: Vec<CareerEntity> = Vec::new();
        let mut i: usize = 0;
        assert(self.rows().take(0) =~= Seq::<CareerRecord>::empty());
        while i < self.careers.len()
            invariant
                i <= self.careers.len(),
                self.rows().len() == self.careers.len(),
                records(found@) == careers_of(self.rows().take(i as int), user_id as int),
            decreases self.careers.len() - i,
        {
            let ghost upto = self.rows().take(i + 1);
            assert(upto.drop_last() =~= self.rows().take(i as int));
            assert(upto.last() == self.careers[i as int]@);
            if self.careers[i].user_id == user_id {
                let ghost prior = records(found@);
                found.push(self.careers[i].clone());
                assert(records(found@) =~= prior.push(upto.last()));
            }
            i += 1;
        }
        assert(self.rows().take(i as int) =~= self.rows());
        Ok(found)
    }
}

} // verus!
