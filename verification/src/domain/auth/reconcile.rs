//! Bringing the profile store in line with what the provider says.
//!
//! A user who signs in is stored if the store does not know the identifier,
//! and gets the name and the avatar of the profile if it does. The store is
//! asked one thing at a time: [`Reconciliation`] says what to ask next and
//! takes the answer, so that whoever talks to the store may wait for it in
//! any way. [`reconcile`] runs the whole exchange against a [`Repository`].

use crate::domain::auth::entity::{Profile, UserProfile};
use crate::domain::user::entity::{Timestamp, UserEntity, UserRecord};
use crate::repositories::user::{
    distinct_ids, fetch_outcome, first_with, holds, insert_outcome, lemma_first_with, occurrences,
    renamed_in, update_outcome, view_of, FetchOneError, InsertError, Repository, UpdateError,
};
use vstd::prelude::*;

verus! {

/// The row of a user who signs in for the first time at `now`.
pub open spec fn first_record(profile: Profile, now: Timestamp) -> UserRecord {
    UserRecord::created(profile.id, profile.login, profile.stored_name(), profile.avatar_url, now)
}

/// The rows after `profile` was reconciled at `now`: a user the store knows
/// gets the name and the avatar of the profile and the instant of the
/// update, and keeps everything else; any other user is put behind the rest.
pub open spec fn upsert(rows: Seq<UserRecord>, profile: Profile, now: Timestamp) -> Seq<UserRecord> {
    if holds(rows, profile.id) {
        renamed_in(rows, profile.id, profile.stored_name(), profile.avatar_url, now)
    } else {
        rows.push(first_record(profile, now))
    }
}

/// One thing to ask of the store.
#[derive(Debug)]
pub enum Command {
    FetchOne { id: i64 },
    Insert { user: UserEntity },
    Update { id: i64, name: String, avatar_url: String, now: Timestamp },
}

/// A command as plain values.
pub enum CommandView {
    FetchOne { id: int },
    Insert { user: UserRecord },
    Update { id: int, name: Seq<char>, avatar_url: Seq<char>, now: Timestamp },
}

impl View for Command {
    type V = CommandView;

    open spec fn view(&self) -> CommandView {
        match self {
            Command::FetchOne { id } => CommandView::FetchOne { id: *id as int },
            Command::Insert { user } => CommandView::Insert { user: user@ },
            Command::Update { id, name, avatar_url, now } => CommandView::Update {
                id: *id as int,
                name: name@,
                avatar_url: avatar_url@,
                now: *now,
            },
        }
    }
}

/// What the store answered to a command.
#[derive(Debug)]
pub enum Reply {
    Fetched(Result<UserEntity, FetchOneError>),
    Inserted(Result<UserEntity, InsertError>),
    Updated(Result<UserEntity, UpdateError>),
}

/// What became of an answer: whether it was the answer to a fetch, an insert
/// or an update, and whether it was a success and, if not, of which kind.
pub enum ReplyKind {
    Found,
    NotFound,
    FetchFailed,
    Inserted,
    Conflict,
    InsertFailed,
    Updated,
    UpdateFailed,
}

impl Reply {
    /// What became of the answer.
    pub open spec fn kind(self) -> ReplyKind {
        match self {
            Reply::Fetched(Ok(_)) => ReplyKind::Found,
            Reply::Fetched(Err(FetchOneError::NotFound)) => ReplyKind::NotFound,
            Reply::Fetched(Err(FetchOneError::Unknown)) => ReplyKind::FetchFailed,
            Reply::Inserted(Ok(_)) => ReplyKind::Inserted,
            Reply::Inserted(Err(InsertError::Conflict)) => ReplyKind::Conflict,
            Reply::Inserted(Err(InsertError::Unknown)) => ReplyKind::InsertFailed,
            Reply::Updated(Ok(_)) => ReplyKind::Updated,
            Reply::Updated(Err(_)) => ReplyKind::UpdateFailed,
        }
    }
}

/// Where a reconciliation stands.
#[derive(Debug, Clone, Copy, PartialEq, Eq, Structural)]
pub enum Stage {
    /// The store was asked for the user.
    Fetching,
    /// The store was asked to insert the user.
    Inserting,
    /// The store was asked to update the user.
    Updating,
    /// The store holds the user as the profile says.
    Done,
    /// The store failed.
    Failed,
}

/// What to do after an answer.
pub enum Move {
    /// Ask the store to insert the user.
    Insert,
    /// Ask the store to update the user.
    Update,
    /// Nothing: the reconciliation is over.
    Rest,
}

/// The rule of the reconciliation: where it stands after the store answered,
/// and what to ask next.
///
/// A user that is found is updated; one that is not found, or could not be
/// looked for, is inserted. An insert that collides with a row that came in
/// meanwhile is tried once more as an update. Every other failure ends the
/// reconciliation, and so does an answer to a question that was not asked.
pub open spec fn next(stage: Stage, answer: ReplyKind) -> (Stage, Move) {
    match (stage, answer) {
        (Stage::Fetching, ReplyKind::Found) => (Stage::Updating, Move::Update),
        (Stage::Fetching, ReplyKind::NotFound) => (Stage::Inserting, Move::Insert),
        (Stage::Fetching, ReplyKind::FetchFailed) => (Stage::Inserting, Move::Insert),
        (Stage::Inserting, ReplyKind::Inserted) => (Stage::Done, Move::Rest),
        (Stage::Inserting, ReplyKind::Conflict) => (Stage::Updating, Move::Update),
        (Stage::Updating, ReplyKind::Updated) => (Stage::Done, Move::Rest),
        (Stage::Done, _) => (Stage::Done, Move::Rest),
        _ => (Stage::Failed, Move::Rest),
    }
}

/// The store failed while a profile was reconciled.
#[derive(Debug, Clone, Copy, PartialEq, Eq, Structural)]
pub enum StoreError {
    Unknown,
}

/// The reconciliation of one profile at one instant.
#[derive(Debug)]
pub struct Reconciliation {
    pub profile: UserProfile,
    pub now: Timestamp,
    pub stage: Stage,
}

impl Reconciliation {
    /// The command that a move stands for.
    pub open spec fn command_for(profile: Profile, now: Timestamp, step: Move) -> Option<CommandView> {
        match step {
            Move::Insert => Some(CommandView::Insert { user: first_record(profile, now) }),
            Move::Update => Some(
                CommandView::Update {
                    id: profile.id,
                    name: profile.stored_name(),
                    avatar_url: profile.avatar_url,
                    now,
                },
            ),
            Move::Rest => None,
        }
    }

    /// Begins to reconcile `profile` at `now`: the store is asked for the
    /// user first.
    pub fn start(profile: UserProfile, now: Timestamp) -> (res: (Self, Command))
        ensures
            res.0.profile@ == profile@,
            res.0.now == now,
            res.0.stage == Stage::Fetching,
            res.1@ == (CommandView::FetchOne { id: profile.id as int }),
    {
        let id = profile.id;
        (Reconciliation { profile, now, stage: Stage::Fetching }, Command::FetchOne { id })
    }

    /// Takes the answer of the store and says what to ask next, if anything,
    /// as [`next`] rules.
    pub fn advance(self, reply: Reply) -> (res: (Self, Option<Command>))
        ensures
            res.0.profile@ == self.profile@,
            res.0.now == self.now,
            res.0.stage == next(self.stage, reply.kind()).0,
            view_of_command(res.1) == Self::command_for(
                self.profile@,
                self.now,
                next(self.stage, reply.kind()).1,
            ),
    {
        let insert = match (&self.stage, &reply) {
            (Stage::Fetching, Reply::Fetched(Ok(_))) => Some(false),
            (Stage::Fetching, Reply::Fetched(Err(_))) => Some(true),
            (Stage::Inserting, Reply::Inserted(Err(InsertError::Conflict))) => Some(false),
            _ => None,
        };
        match insert {
            Some(true) => {
                let user = UserEntity {
                    id: self.profile.id,
                    login: self.profile.login.clone(),
                    name: self.profile.stored_name(),
                    avatar_url: self.profile.avatar_url.clone(),
                    email: None,
                    created_at: self.now,
                    updated_at: self.now,
                };
                (
                    Reconciliation { profile: self.profile, now: self.now, stage: Stage::Inserting },
                    Some(Command::Insert { user }),
                )
            },
            Some(false) => {
                let command = Command::Update {
                    id: self.profile.id,
                    name: self.profile.stored_name(),
                    avatar_url: self.profile.avatar_url.clone(),
                    now: self.now,
                };
                (
                    Reconciliation { profile: self.profile, now: self.now, stage: Stage::Updating },
                    Some(command),
                )
            },
            None => {
                let done = match (&self.stage, &reply) {
                    (Stage::Inserting, Reply::Inserted(Ok(_))) => true,
                    (Stage::Updating, Reply::Updated(Ok(_))) => true,
                    (Stage::Done, _) => true,
                    _ => false,
                };
                let stage = if done {
                    Stage::Done
                } else {
                    Stage::Failed
                };
                (Reconciliation { profile: self.profile, now: self.now, stage }, None)
            },
        }
    }

    /// What the reconciliation came to, once it is over: the profile, or the
    /// failure of the store.
    pub fn outcome(&self) -> (res: Option<Result<UserProfile, StoreError>>)
        ensures
            match res {
                Some(Ok(profile)) => self.stage == Stage::Done && profile@ == self.profile@,
                Some(Err(_)) => self.stage == Stage::Failed,
                None => self.stage != Stage::Done && self.stage != Stage::Failed,
            },
    {
        match self.stage {
            Stage::Done => Some(Ok(self.profile.clone())),
            Stage::Failed => Some(Err(StoreError::Unknown)),
            _ => None,
        }
    }
}

/// A command that may be missing, as plain values.
pub open spec fn view_of_command(command: Option<Command>) -> Option<CommandView> {
    match command {
        Some(command) => Some(command@),
        None => None,
    }
}

/// An answer of the store as plain values.
pub enum ReplyView {
    Fetched(Result<UserRecord, FetchOneError>),
    Inserted(Result<UserRecord, InsertError>),
    Updated(Result<UserRecord, UpdateError>),
}

impl View for Reply {
    type V = ReplyView;

    open spec fn view(&self) -> ReplyView {
        match self {
            Reply::Fetched(res) => ReplyView::Fetched(view_of(*res)),
            Reply::Inserted(res) => ReplyView::Inserted(view_of(*res)),
            Reply::Updated(res) => ReplyView::Updated(view_of(*res)),
        }
    }
}

/// What a store that follows its rules answers to a command, and the rows
/// after it.
pub open spec fn effect(rows: Seq<UserRecord>, command: CommandView) -> (ReplyView, Seq<UserRecord>) {
    match command {
        CommandView::FetchOne { id } => (ReplyView::Fetched(fetch_outcome(rows, id)), rows),
        CommandView::Insert { user } => (
            ReplyView::Inserted(insert_outcome(rows, user).0),
            insert_outcome(rows, user).1,
        ),
        CommandView::Update { id, name, avatar_url, now } => (
            ReplyView::Updated(update_outcome(rows, id, name, avatar_url, now).0),
            update_outcome(rows, id, name, avatar_url, now).1,
        ),
    }
}

/// Asks the store one thing.
pub fn perform<R: Repository>(repo: &mut R, command: Command) -> (reply: Reply)
    ensures
        final(repo).reliable() == old(repo).reliable(),
        match command {
            Command::FetchOne { .. } => reply is Fetched,
            Command::Insert { .. } => reply is Inserted,
            Command::Update { .. } => reply is Updated,
        },
        old(repo).reliable() ==> (reply@, final(repo).rows()) == effect(old(repo).rows(), command@),
{
    match command {
        Command::FetchOne { id } => Reply::Fetched(repo.fetch_one(id)),
        Command::Insert { user } => Reply::Inserted(repo.insert(user)),
        Command::Update { id, name, avatar_url, now } => Reply::Updated(
            repo.update(id, name, avatar_url, now),
        ),
    }
}

/// Reconciles `profile` with the store at `now`, asking the store at most
/// three things.
///
/// A store that follows its rules ends up with the rows of [`upsert`], and
/// the profile comes back. If no two rows of such a store shared an
/// identifier before, none do after, and exactly one row has the identifier
/// of the profile. Of any other store, only this is known: the profile comes
/// back if the reconciliation succeeded.
pub fn reconcile<R: Repository>(repo: &mut R, profile: UserProfile, now: Timestamp) -> (res: Result<
    UserProfile,
    StoreError,
>)
    ensures
        res matches Ok(reconciled) ==> reconciled@ == profile@,
        final(repo).reliable() == old(repo).reliable(),
        old(repo).reliable() ==> res is Ok && final(repo).rows() == upsert(
            old(repo).rows(),
            profile@,
            now,
        ),
        old(repo).reliable() && distinct_ids(old(repo).rows()) ==> distinct_ids(final(repo).rows())
            && occurrences(final(repo).rows(), profile.id as int) == 1,
{
    proof {
        lemma_first_with(repo.rows(), profile.id as int);
        if distinct_ids(repo.rows()) {
            lemma_upsert_keeps_one(repo.rows(), profile@, now);
        }
    }
    let (state, first) = Reconciliation::start(profile, now);
    let reply = perform(repo, first);
    let (state, second) = state.advance(reply);
    let (state, third) = match second {
        Some(command) => {
            let reply = perform(repo, command);
            state.advance(reply)
        },
        None => (state, None),
    };
    let state = match third {
        Some(command) => {
            let reply = perform(repo, command);
            state.advance(reply).0
        },
        None => state,
    };
    match state.outcome() {
        Some(outcome) => outcome,
        None => Err(StoreError::Unknown),
    }
}

/// Rows without the identifier have no occurrence of it.
pub proof fn lemma_occurrences_absent(rows: Seq<UserRecord>, id: int)
    requires
        !holds(rows, id),
    ensures
        occurrences(rows, id) == 0,
    decreases rows.len(),
{
    if rows.len() > 0 {
        let front = rows.drop_last();
        assert(rows.last().id != id) by {
            assert(rows[rows.len() - 1] == rows.last());
        }
        assert(!holds(front, id)) by {
            if holds(front, id) {
                let i = choose|i: int| 0 <= i < front.len() && front[i].id == id;
                assert(rows[i] == front[i]);
            }
        }
        lemma_occurrences_absent(front, id);
    }
}

/// Among rows with distinct identifiers, an identifier that occurs does so
/// once.
pub proof fn lemma_occurrences_distinct(rows: Seq<UserRecord>, id: int)
    requires
        distinct_ids(rows),
        holds(rows, id),
    ensures
        occurrences(rows, id) == 1,
    decreases rows.len(),
{
    let front = rows.drop_last();
    assert(distinct_ids(front)) by {
        assert forall|i: int, j: int| 0 <= i < j < front.len() implies front[i].id != front[j].id by {
            assert(front[i] == rows[i] && front[j] == rows[j]);
        }
    }
    if rows.last().id == id {
        assert(!holds(front, id)) by {
            if holds(front, id) {
                let i = choose|i: int| 0 <= i < front.len() && front[i].id == id;
                assert(rows[i] == front[i]);
                assert(rows[rows.len() - 1] == rows.last());
            }
        }
        lemma_occurrences_absent(front, id);
    } else {
        let i = choose|i: int| 0 <= i < rows.len() && rows[i].id == id;
        assert(front[i] == rows[i]);
        lemma_occurrences_distinct(front, id);
    }
}

/// Rows with the same identifiers in the same places have the same
/// occurrences of each.
pub proof fn lemma_occurrences_by_ids(a: Seq<UserRecord>, b: Seq<UserRecord>, id: int)
    requires
        a.len() == b.len(),
        forall|i: int| 0 <= i < a.len() ==> a[i].id == b[i].id,
    ensures
        occurrences(a, id) == occurrences(b, id),
    decreases a.len(),
{
    if a.len() > 0 {
        let (x, y) = (a.drop_last(), b.drop_last());
        assert forall|i: int| 0 <= i < x.len() implies x[i].id == y[i].id by {
            assert(x[i] == a[i] && y[i] == b[i]);
        }
        lemma_occurrences_by_ids(x, y, id);
        assert(a.last().id == b.last().id);
    }
}

/// After a profile was reconciled with rows of distinct identifiers, the
/// identifiers are still distinct, and exactly one row has the identifier of
/// the profile.
pub proof fn lemma_upsert_keeps_one(rows: Seq<UserRecord>, profile: Profile, now: Timestamp)
    requires
        distinct_ids(rows),
    ensures
        distinct_ids(upsert(rows, profile, now)),
        occurrences(upsert(rows, profile, now), profile.id) == 1,
{
    let after = upsert(rows, profile, now);
    if holds(rows, profile.id) {
        lemma_occurrences_distinct(rows, profile.id);
        lemma_occurrences_by_ids(rows, after, profile.id);
    } else {
        assert(after.drop_last() =~= rows);
        lemma_occurrences_absent(rows, profile.id);
        assert forall|i: int, j: int| 0 <= i < j < after.len() implies after[i].id
            != after[j].id by {
            if j == rows.len() {
                assert(rows[i].id != profile.id);
            }
        }
    }
}

/// The user of a profile is in the store once the profile was reconciled.
pub proof fn lemma_upsert_holds(rows: Seq<UserRecord>, profile: Profile, now: Timestamp)
    ensures
        holds(upsert(rows, profile, now), profile.id),
{
    let after = upsert(rows, profile, now);
    if holds(rows, profile.id) {
        let i = choose|i: int| 0 <= i < rows.len() && rows[i].id == profile.id;
        assert(after[i].id == profile.id);
    } else {
        assert(after[rows.len() as int].id == profile.id);
    }
}

/// The oldest row of a user after an update is the oldest row before it with
/// the new name, avatar and instant.
pub proof fn lemma_first_with_renamed(
    rows: Seq<UserRecord>,
    id: int,
    name: Seq<char>,
    avatar_url: Seq<char>,
    now: Timestamp,
)
    ensures
        first_with(renamed_in(rows, id, name, avatar_url, now), id) == match first_with(rows, id) {
            Some(user) => Some(user.renamed(name, avatar_url, now)),
            None => None,
        },
    decreases rows.len(),
{
    let after = renamed_in(rows, id, name, avatar_url, now);
    if rows.len() > 0 && rows[0].id != id {
        assert(after.drop_first() =~= renamed_in(rows.drop_first(), id, name, avatar_url, now));
        lemma_first_with_renamed(rows.drop_first(), id, name, avatar_url, now);
    }
}

/// After a profile was reconciled at `now`, the oldest row of its user was
/// updated at `now`. A user the store knew keeps the instant of creation, and
/// the update is later than the one before if `now` is; any other user was
/// created at `now`.
pub proof fn lemma_upsert_refreshes(rows: Seq<UserRecord>, profile: Profile, now: Timestamp)
    ensures
        first_with(upsert(rows, profile, now), profile.id) matches Some(user) && user.updated_at
            == now && user.name == profile.stored_name() && user.avatar_url == profile.avatar_url
            && match first_with(rows, profile.id) {
            Some(prior) => user.created_at == prior.created_at && user.login == prior.login && (
            now.later_than(prior.updated_at) ==> user.updated_at.later_than(prior.updated_at)),
            None => user == first_record(profile, now),
        },
{
    lemma_first_with(rows, profile.id);
    if holds(rows, profile.id) {
        lemma_first_with_renamed(rows, profile.id, profile.stored_name(), profile.avatar_url, now);
    } else {
        let after = upsert(rows, profile, now);
        assert forall|j: int| 0 <= j < rows.len() implies after[j].id != profile.id by {
            assert(after[j] == rows[j]);
        }
        crate::repositories::user::lemma_first_with_at(after, profile.id, rows.len() as int);
    }
}

/// Whether every row was updated no earlier than it was created.
pub open spec fn chronological(rows: Seq<UserRecord>) -> bool {
    forall|i: int| 0 <= i < rows.len() ==> !(#[trigger] rows[i]).created_at.later_than(rows[i].updated_at)
}

/// Rows that were updated no earlier than created stay so when a profile is
/// reconciled at an instant that is not before the creation of its user.
pub proof fn lemma_upsert_chronological(rows: Seq<UserRecord>, profile: Profile, now: Timestamp)
    requires
        chronological(rows),
        forall|i: int|
            0 <= i < rows.len() && (#[trigger] rows[i]).id == profile.id ==> !rows[i].created_at.later_than(
                now,
            ),
    ensures
        chronological(upsert(rows, profile, now)),
{
    let after = upsert(rows, profile, now);
    assert forall|i: int| 0 <= i < after.len() implies !(#[trigger] after[i]).created_at.later_than(
        after[i].updated_at,
    ) by {
        if i < rows.len() {
            assert(!rows[i].created_at.later_than(rows[i].updated_at));
        }
    }
}

/// Of two profiles with one identifier that are reconciled one after the
/// other, the second gives the user its name and avatar, and the instant of
/// creation stays the one that the first left.
pub proof fn lemma_last_profile_wins(
    rows: Seq<UserRecord>,
    first: Profile,
    second: Profile,
    first_at: Timestamp,
    second_at: Timestamp,
)
    requires
        first.id == second.id,
    ensures
        ({
            let between = upsert(rows, first, first_at);
            let after = upsert(between, second, second_at);
            &&& first_with(between, first.id) is Some
            &&& first_with(after, first.id) == Some(
                first_with(between, first.id)->0.renamed(
                    second.stored_name(),
                    second.avatar_url,
                    second_at,
                ),
            )
            &&& first_with(after, first.id)->0.name == second.stored_name()
            &&& first_with(after, first.id)->0.avatar_url == second.avatar_url
            &&& first_with(after, first.id)->0.created_at == first_with(
                between,
                first.id,
            )->0.created_at
        }),
{
    let between = upsert(rows, first, first_at);
    lemma_upsert_holds(rows, first, first_at);
    lemma_first_with(between, first.id);
    lemma_first_with_renamed(
        between,
        second.id,
        second.stored_name(),
        second.avatar_url,
        second_at,
    );
}

} // verus!
