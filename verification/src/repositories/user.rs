//! The profile store.
//!
//! A store holds user records in the order in which they came. What its three
//! operations do to the rows, and what they answer, is given by the spec
//! functions [`insert_outcome`], [`fetch_outcome`] and [`update_outcome`]. A
//! store that is [`Repository::reliable`] follows them; [`InMemoryRepository`]
//! does, unless it was told to fail.

use crate::domain::user::entity::{Timestamp, UserEntity, UserRecord};
use vstd::prelude::*;

verus! {

/// Why a row was not inserted.
#[derive(Debug, Clone, Copy, PartialEq, Eq, Structural)]
pub enum InsertError {
    /// A row with this identifier is there already.
    Conflict,
    /// Anything else.
    Unknown,
}

/// Why a row was not updated.
#[derive(Debug, Clone, Copy, PartialEq, Eq, Structural)]
pub enum UpdateError {
    Unknown,
}

/// Why no row was fetched.
#[derive(Debug, Clone, Copy, PartialEq, Eq, Structural)]
pub enum FetchOneError {
    /// No row has this identifier.
    NotFound,
    /// Anything else.
    Unknown,
}

impl InsertError {
    /// Why an insert failed, told by whether a row with the identifier is
    /// there after it: a collision if one is, anything else if none is.
    pub fn after_failure(taken: bool) -> (e: InsertError)
        ensures
            e == if taken {
                InsertError::Conflict
            } else {
                InsertError::Unknown
            },
    {
        if taken {
            InsertError::Conflict
        } else {
            InsertError::Unknown
        }
    }
}

/// Whether a row with this identifier is among `rows`.
pub open spec fn holds(rows: Seq<UserRecord>, id: int) -> bool {
    exists|i: int| 0 <= i < rows.len() && rows[i].id == id
}

/// How many rows have this identifier.
pub open spec fn occurrences(rows: Seq<UserRecord>, id: int) -> nat
    decreases rows.len(),
{
    if rows.len() == 0 {
        0
    } else {
        occurrences(rows.drop_last(), id) + if rows.last().id == id {
            1nat
        } else {
            0nat
        }
    }
}

/// Whether no two rows share an identifier.
pub open spec fn distinct_ids(rows: Seq<UserRecord>) -> bool {
    forall|i: int, j: int| 0 <= i < j < rows.len() ==> rows[i].id != rows[j].id
}

/// The oldest row with this identifier.
pub open spec fn first_with(rows: Seq<UserRecord>, id: int) -> Option<UserRecord>
    decreases rows.len(),
{
    if rows.len() == 0 {
        None
    } else if rows[0].id == id {
        Some(rows[0])
    } else {
        first_with(rows.drop_first(), id)
    }
}

/// The rows after every row with this identifier got a new name and avatar
/// at `now`.
pub open spec fn renamed_in(
    rows: Seq<UserRecord>,
    id: int,
    name: Seq<char>,
    avatar_url: Seq<char>,
    now: Timestamp,
) -> Seq<UserRecord> {
    Seq::new(
        rows.len(),
        |i: int|
            if rows[i].id == id {
                rows[i].renamed(name, avatar_url, now)
            } else {
                rows[i]
            },
    )
}

/// What inserting `user` answers, and the rows after it: a row whose
/// identifier is taken is refused, any other is put behind the rest.
pub open spec fn insert_outcome(rows: Seq<UserRecord>, user: UserRecord) -> (
    Result<UserRecord, InsertError>,
    Seq<UserRecord>,
) {
    if holds(rows, user.id) {
        (Err(InsertError::Conflict), rows)
    } else {
        (Ok(user), rows.push(user))
    }
}

/// What fetching the user `id` answers.
pub open spec fn fetch_outcome(rows: Seq<UserRecord>, id: int) -> Result<UserRecord, FetchOneError> {
    match first_with(rows, id) {
        Some(user) => Ok(user),
        None => Err(FetchOneError::NotFound),
    }
}

/// What updating the user `id` answers, and the rows after it: the name, the
/// avatar and the instant of the update are written, everything else is kept.
pub open spec fn update_outcome(
    rows: Seq<UserRecord>,
    id: int,
    name: Seq<char>,
    avatar_url: Seq<char>,
    now: Timestamp,
) -> (Result<UserRecord, UpdateError>, Seq<UserRecord>) {
    match first_with(rows, id) {
        Some(user) => (
            Ok(user.renamed(name, avatar_url, now)),
            renamed_in(rows, id, name, avatar_url, now),
        ),
        None => (Err(UpdateError::Unknown), rows),
    }
}

/// The oldest row with an identifier is a row with that identifier, and
/// there is one exactly when some row has it.
pub proof fn lemma_first_with(rows: Seq<UserRecord>, id: int)
    ensures
        first_with(rows, id) is Some <==> holds(rows, id),
        first_with(rows, id) matches Some(user) ==> user.id == id && rows.contains(user),
    decreases rows.len(),
{
    if rows.len() > 0 {
        let rest = rows.drop_first();
        lemma_first_with(rest, id);
        if rows[0].id == id {
            assert(rows[0].id == id && 0 <= 0 < rows.len());
        } else {
            if holds(rows, id) {
                let i = choose|i: int| 0 <= i < rows.len() && rows[i].id == id;
                assert(rest[i - 1] == rows[i]);
            }
            if holds(rest, id) {
                let i = choose|i: int| 0 <= i < rest.len() && rest[i].id == id;
                assert(rows[i + 1] == rest[i]);
            }
            if first_with(rest, id) is Some {
                let user = first_with(rest, id)->0;
                let i = choose|i: int| 0 <= i < rest.len() && rest[i] == user;
                assert(rows[i + 1] == user);
            }
        }
    }
}

/// The row at `at` is the oldest with its identifier when no row before it
/// has that identifier.
pub proof fn lemma_first_with_at(rows: Seq<UserRecord>, id: int, at: int)
    requires
        0 <= at < rows.len(),
        rows[at].id == id,
        forall|j: int| 0 <= j < at ==> rows[j].id != id,
    ensures
        first_with(rows, id) == Some(rows[at]),
    decreases at,
{
    if at > 0 {
        let rest = rows.drop_first();
        assert forall|j: int| 0 <= j < at - 1 implies rest[j].id != id by {
            assert(rest[j] == rows[j + 1]);
        }
        lemma_first_with_at(rest, id, at - 1);
    }
}

/// Rows without two of one identifier stay so when a row is inserted.
pub proof fn lemma_insert_keeps_distinct(rows: Seq<UserRecord>, user: UserRecord)
    requires
        distinct_ids(rows),
    ensures
        distinct_ids(insert_outcome(rows, user).1),
{
    let after = insert_outcome(rows, user).1;
    if !holds(rows, user.id) {
        assert forall|i: int, j: int| 0 <= i < j < after.len() implies after[i].id != after[j].id by {
            if j == rows.len() {
                assert(rows[i].id != user.id);
            }
        }
    }
}

/// Rows without two of one identifier stay so when a user is updated.
pub proof fn lemma_update_keeps_distinct(
    rows: Seq<UserRecord>,
    id: int,
    name: Seq<char>,
    avatar_url: Seq<char>,
    now: Timestamp,
)
    requires
        distinct_ids(rows),
    ensures
        distinct_ids(update_outcome(rows, id, name, avatar_url, now).1),
{
    let after = update_outcome(rows, id, name, avatar_url, now).1;
    assert forall|i: int, j: int| 0 <= i < j < after.len() implies after[i].id != after[j].id by {
        assert(after[i].id == rows[i].id && after[j].id == rows[j].id);
    }
}

/// A store of users.
pub trait Repository {
    /// The rows that the store holds, oldest first.
    spec fn rows(&self) -> Seq<UserRecord>;

    /// Whether the store follows [`insert_outcome`], [`fetch_outcome`] and
    /// [`update_outcome`]. Of a store that does not, nothing is known.
    spec fn reliable(&self) -> bool;

    /// Inserts `user` unless its identifier is taken.
    fn insert(&mut self, user: UserEntity) -> (res: Result<UserEntity, InsertError>)
        ensures
            final(self).reliable() == old(self).reliable(),
            old(self).reliable() ==> (view_of(res), final(self).rows()) == insert_outcome(
                old(self).rows(),
                user@,
            ),
    ;

    /// Writes a new name and avatar for the user `id`.
    fn update(&mut self, id: i64, name: String, avatar_url: String, now: Timestamp) -> (res: Result<
        UserEntity,
        UpdateError,
    >)
        ensures
            final(self).reliable() == old(self).reliable(),
            old(self).reliable() ==> (view_of(res), final(self).rows()) == update_outcome(
                old(self).rows(),
                id as int,
                name@,
                avatar_url@,
                now,
            ),
    ;

    /// Fetches the user `id`.
    fn fetch_one(&self, id: i64) -> (res: Result<UserEntity, FetchOneError>)
        ensures
            self.reliable() ==> view_of(res) == fetch_outcome(self.rows(), id as int),
    ;
}

/// An answer of a store with the user in it as plain values.
pub open spec fn view_of<E>(res: Result<UserEntity, E>) -> Result<UserRecord, E> {
    match res {
        Ok(user) => Ok(user@),
        Err(e) => Err(e),
    }
}

/// A store that keeps its rows in memory.
pub struct InMemoryRepository {
    error: bool,
    users: Vec<UserEntity>,
}

impl InMemoryRepository {
    /// A store without rows that does what it is asked.
    pub fn new() -> (repo: Self)
        ensures
            repo.rows() == Seq::<UserRecord>::empty(),
            repo.reliable(),
    {
        let repo = InMemoryRepository { error: false, users: Vec::new() };
        assert(repo.rows() =~= Seq::<UserRecord>::empty());
        repo
    }

    /// The same rows in a store that answers `Unknown` to every insert and
    /// every fetch.
    pub fn with_error(self) -> (repo: Self)
        ensures
            repo.rows() == self.rows(),
            !repo.reliable(),
    {
        InMemoryRepository { error: true, users: self.users }
    }

    /// How many rows the store holds.
    pub fn len(&self) -> (n: usize)
        ensures
            n == self.rows().len(),
    {
        self.users.len()
    }

    /// The row at `index`, the oldest being at 0.
    pub fn get(&self, index: usize) -> (res: Option<UserEntity>)
        ensures
            match res {
                Some(user) => index < self.rows().len() && user@ == self.rows()[index as int],
                None => index >= self.rows().len(),
            },
    {
        if index < self.users.len() {
            Some(self.users[index].clone())
        } else {
            None
        }
    }

    /// Where the oldest row with this identifier stands.
    fn position(&self, id: i64) -> (res: Option<usize>)
        ensures
            match res {
                Some(at) => at < self.rows().len() && first_with(self.rows(), id as int) == Some(
                    self.rows()[at as int],
                ) && self.rows()[at as int].id == id,
                None => first_with(self.rows(), id as int) is None,
            },
    {
        let mut i: usize = 0;
        while i < self.users.len()
            invariant
                i <= self.users.len(),
                forall|j: int| 0 <= j < i ==> self.rows()[j].id != id,
            decreases self.users.len() - i,
        {
            if self.users[i].id == id {
                proof {
                    lemma_first_with_at(self.rows(), id as int, i as int);
                }
                return Some(i);
            }
            i += 1;
        }
        proof {
            lemma_first_with(self.rows(), id as int);
        }
        None
    }
}

impl Repository for InMemoryRepository {
    closed spec fn rows(&self) -> Seq<UserRecord> {
        Seq::new(self.users.len() as nat, |i: int| self.users[i]@)
    }

    closed spec fn reliable(&self) -> bool {
        !self.error
    }

    fn insert(&mut self, user: UserEntity) -> (res: Result<UserEntity, InsertError>)
        ensures
            !old(self).reliable() ==> res == Err::<UserEntity, InsertError>(InsertError::Unknown)
                && final(self).rows() == old(self).rows(),
    {
        if self.error {
            return Err(InsertError::Unknown);
        }
        proof {
            lemma_first_with(self.rows(), user.id as int);
        }
        if self.position(user.id).is_some() {
            return Err(InsertError::Conflict);
        }
        let ghost before = self.rows();
        self.users.push(user.clone());
        assert(self.rows() =~= before.push(user@));
        Ok(user)
    }

    fn update(&mut self, id: i64, name: String, avatar_url: String, now: Timestamp) -> (res: Result<
        UserEntity,
        UpdateError,
    >)
        ensures
            (view_of(res), final(self).rows()) == update_outcome(
                old(self).rows(),
                id as int,
                name@,
                avatar_url@,
                now,
            ),
    {
        let ghost before = self.rows();
        let mut first: Option<UserEntity> = None;
        let mut i: usize = 0;
        while i < self.users.len()
            invariant
                i <= self.users.len(),
                self.error == old(self).error,
                self.rows().len() == before.len(),
                forall|j: int|
                    0 <= j < i ==> self.rows()[j] == renamed_in(before, id as int, name@, avatar_url@, now)[j],
                forall|j: int| i <= j < before.len() ==> self.rows()[j] == before[j],
                forall|j: int| 0 <= j < i ==> before[j].id != id as int <== first is None,
                first matches Some(user) ==> exists|at: int|
                    0 <= at < i && before[at].id == id as int && user@ == before[at].renamed(
                        name@,
                        avatar_url@,
                        now,
                    ) && forall|j: int| 0 <= j < at ==> before[j].id != id as int,
            decreases self.users.len() - i,
        {
            let ghost during = self.rows();
            assert(during[i as int] == before[i as int]);
            if self.users[i].id == id {
                let user = UserEntity {
                    id,
                    login: self.users[i].login.clone(),
                    name: name.clone(),
                    avatar_url: avatar_url.clone(),
                    email: match &self.users[i].email {
                        Some(email) => Some(email.clone()),
                        None => None,
                    },
                    created_at: self.users[i].created_at,
                    updated_at: now,
                };
                assert(user@ == before[i as int].renamed(name@, avatar_url@, now));
                if first.is_none() {
                    first = Some(user.clone());
                }
                self.users.set(i, user);
                assert(self.rows() =~= during.update(
                    i as int,
                    before[i as int].renamed(name@, avatar_url@, now),
                ));
            }
            i += 1;
        }
        assert(self.rows() =~= renamed_in(before, id as int, name@, avatar_url@, now));
        match first {
            Some(user) => {
                proof {
                    let at = choose|at: int|
                        0 <= at < before.len() && before[at].id == id as int && user@
                            == before[at].renamed(name@, avatar_url@, now) && forall|j: int|
                            0 <= j < at ==> before[j].id != id as int;
                    lemma_first_with_at(before, id as int, at);
                }
                Ok(user)
            },
            None => {
                proof {
                    lemma_first_with(before, id as int);
                    assert(self.rows() =~= before);
                }
                Err(UpdateError::Unknown)
            },
        }
    }

    fn fetch_one(&self, id: i64) -> (res: Result<UserEntity, FetchOneError>)
        ensures
            !self.reliable() ==> res == Err::<UserEntity, FetchOneError>(FetchOneError::Unknown),
    {
        if self.error {
            return Err(FetchOneError::Unknown);
        }
        match self.position(id) {
            Some(at) => Ok(self.users[at].clone()),
            None => Err(FetchOneError::NotFound),
        }
    }
}

} // verus!
