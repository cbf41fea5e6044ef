//! Validated user values.
//!
//! Each value type wraps a raw value that passed its check; the check is a
//! spec function, and `try_from` accepts exactly the raw values it admits.

use crate::text::rsplit_once;
use vstd::prelude::*;
use vstd::std_specs::convert::TryFromSpecImpl;
use vstd::string::*;
use vstd::utf8::*;

verus! {

/// Why a raw value is no electronic mail address.
#[derive(Debug, Clone, Copy, PartialEq, Eq, Structural)]
pub enum Error {
    /// The address, its local part or its domain is empty.
    EmptyString,
    /// The address holds no `@`.
    MissingSeparator,
    /// The local part is longer than [`LOCAL_PART_MAX_LENGTH`] bytes.
    LocalPartTooLong,
    /// The domain is longer than [`DOMAIN_MAX_LENGTH`] bytes.
    DomainTooLong,
}

impl Error {
    /// The sentence that describes the error.
    pub open spec fn text(self) -> Seq<char> {
        match self {
            Error::EmptyString => "Empty String"@,
            Error::MissingSeparator => "Missing separator character '@'."@,
            Error::LocalPartTooLong => "Local part is too long. Length limit: 64"@,
            Error::DomainTooLong => "Domain is too long. Length limit: 254"@,
        }
    }

    /// The sentence that describes the error.
    pub fn message(&self) -> (res: String)
        ensures
            res@ == self.text(),
    {
        match self {
            Error::EmptyString => "Empty String".to_owned(),
            Error::MissingSeparator => "Missing separator character '@'.".to_owned(),
            Error::LocalPartTooLong => "Local part is too long. Length limit: 64".to_owned(),
            Error::DomainTooLong => "Domain is too long. Length limit: 254".to_owned(),
        }
    }
}

/// Most bytes the part before the `@` may have.
pub const LOCAL_PART_MAX_LENGTH: usize = 64;

/// Most bytes the part after the `@` may have.
pub const DOMAIN_MAX_LENGTH: usize = 254;

/// The byte that separates the local part from the domain: `@`.
pub const SEPARATOR: u8 = 0x40;

/// Where the last `@` stands among `bytes`, or -1 where there is none.
pub open spec fn last_separator(bytes: Seq<u8>) -> int
    decreases bytes.len(),
{
    if bytes.len() == 0 {
        -1
    } else if bytes.last() == SEPARATOR {
        bytes.len() - 1
    } else {
        last_separator(bytes.drop_last())
    }
}

/// What the check of a local part answers.
pub open spec fn local_part_check(part: Seq<u8>) -> Result<(), Error> {
    if part.len() == 0 {
        Err(Error::EmptyString)
    } else if part.len() > LOCAL_PART_MAX_LENGTH {
        Err(Error::LocalPartTooLong)
    } else {
        Ok(())
    }
}

/// What the check of a domain answers.
pub open spec fn domain_check(part: Seq<u8>) -> Result<(), Error> {
    if part.len() == 0 {
        Err(Error::EmptyString)
    } else if part.len() > DOMAIN_MAX_LENGTH {
        Err(Error::DomainTooLong)
    } else {
        Ok(())
    }
}

/// What the check of an address that holds an `@` answers: the local part is
/// what stands before the last `@`, the domain what stands after it, and the
/// local part is looked at first.
pub open spec fn address_check(bytes: Seq<u8>) -> Result<(), Error> {
    let at = last_separator(bytes);
    if at < 0 {
        Err(Error::MissingSeparator)
    } else if local_part_check(bytes.subrange(0, at)) is Err {
        local_part_check(bytes.subrange(0, at))
    } else {
        domain_check(bytes.subrange(at + 1, bytes.len() as int))
    }
}

/// What the check of a raw address answers, the address given as its bytes
/// in UTF-8.
pub open spec fn email_check(bytes: Seq<u8>) -> Result<(), Error> {
    if bytes.len() == 0 {
        Err(Error::EmptyString)
    } else {
        address_check(bytes)
    }
}

/// The last `@` is an `@`, and none stands behind it.
pub proof fn lemma_last_separator(bytes: Seq<u8>)
    ensures
        -1 <= last_separator(bytes) < bytes.len(),
        last_separator(bytes) >= 0 ==> bytes[last_separator(bytes)] == SEPARATOR,
        forall|j: int| last_separator(bytes) < j < bytes.len() ==> bytes[j] != SEPARATOR,
    decreases bytes.len(),
{
    if bytes.len() > 0 && bytes.last() != SEPARATOR {
        let front = bytes.drop_last();
        lemma_last_separator(front);
        assert forall|j: int| last_separator(bytes) < j < bytes.len() implies bytes[j]
            != SEPARATOR by {
            if j < front.len() {
                assert(bytes[j] == front[j]);
            }
        }
    }
}

/// An index with an `@` on it and none behind it is the last separator.
pub proof fn lemma_last_separator_is(bytes: Seq<u8>, at: int)
    requires
        -1 <= at < bytes.len(),
        at >= 0 ==> bytes[at] == SEPARATOR,
        forall|j: int| at < j < bytes.len() ==> bytes[j] != SEPARATOR,
    ensures
        last_separator(bytes) == at,
{
    lemma_last_separator(bytes);
}

/// Splits an address at its last `@`: what stands before it and what stands
/// after it. An address without `@` is refused.
pub fn split_at(address: &str) -> (res: Result<(&str, &str), Error>)
    ensures
        match res {
            Ok((local, domain)) => {
                let bytes = address.spec_bytes();
                let at = last_separator(bytes);
                &&& at >= 0
                &&& local.spec_bytes() == bytes.subrange(0, at)
                &&& domain.spec_bytes() == bytes.subrange(at + 1, bytes.len() as int)
                &&& address@ == local@ + seq!['@'] + domain@
                &&& !domain@.contains('@')
            },
            Err(e) => e == Error::MissingSeparator && last_separator(address.spec_bytes()) < 0,
        },
{
    match rsplit_once(address, SEPARATOR) {
        Some((local, domain)) => {
            proof {
                let bytes = address.spec_bytes();
                let at = local.spec_bytes().len() as int;
                assert(bytes[at] == SEPARATOR);
                assert forall|j: int| at < j < bytes.len() implies bytes[j] != SEPARATOR by {
                    assert(bytes[j] == domain.spec_bytes()[j - at - 1]);
                }
                lemma_last_separator_is(bytes, at);
                assert(local.spec_bytes() =~= bytes.subrange(0, at));
                assert(domain.spec_bytes() =~= bytes.subrange(at + 1, bytes.len() as int));
            }
            Ok((local, domain))
        },
        None => {
            proof {
                lemma_last_separator_is(address.spec_bytes(), -1);
            }
            Err(Error::MissingSeparator)
        },
    }
}

/// Checks the part before the `@`: it is not empty and has at most
/// [`LOCAL_PART_MAX_LENGTH`] bytes.
pub fn parse_local_part(part: &str) -> (res: Result<(), Error>)
    ensures
        res == local_part_check(part.spec_bytes()),
{
    let length = part.as_bytes().len();
    if length == 0 {
        Err(Error::EmptyString)
    } else if length > LOCAL_PART_MAX_LENGTH {
        Err(Error::LocalPartTooLong)
    } else {
        Ok(())
    }
}

/// Checks the part after the `@`: it is not empty and has at most
/// [`DOMAIN_MAX_LENGTH`] bytes.
pub fn parse_domain(part: &str) -> (res: Result<(), Error>)
    ensures
        res == domain_check(part.spec_bytes()),
{
    let length = part.as_bytes().len();
    if length == 0 {
        Err(Error::EmptyString)
    } else if length > DOMAIN_MAX_LENGTH {
        Err(Error::DomainTooLong)
    } else {
        Ok(())
    }
}

/// Checks an address and keeps it as it was written.
pub fn parse_address(address: &str) -> (res: Result<UserEmail, Error>)
    ensures
        match res {
            Ok(email) => email@ == address@ && address_check(address.spec_bytes()) is Ok,
            Err(e) => address_check(address.spec_bytes()) == Err::<(), Error>(e),
        },
{
    match check_address(address) {
        Err(e) => Err(e),
        Ok(()) => Ok(UserEmail(address.to_owned())),
    }
}

/// Checks an address that is not empty: it splits at the last `@`, then both
/// parts pass their checks, the local part first.
fn check_address(address: &str) -> (res: Result<(), Error>)
    ensures
        res == address_check(address.spec_bytes()),
{
    match split_at(address) {
        Err(e) => Err(e),
        Ok((local, domain)) => match parse_local_part(local) {
            Err(e) => Err(e),
            Ok(()) => parse_domain(domain),
        },
    }
}

/// Electronic mail address of a user: a local part and a domain with an `@`
/// between them, neither empty nor longer than its limit.
#[derive(Debug, PartialEq)]
pub struct UserEmail(String);

impl Clone for UserEmail {
    fn clone(&self) -> (res: Self)
        ensures
            res@ == self@,
    {
        proof {
            use_type_invariant(self);
        }
        Self(self.0.clone())
    }
}

impl View for UserEmail {
    type V = Seq<char>;

    closed spec fn view(&self) -> Seq<char> {
        self.0@
    }
}

impl UserEmail {
    /// The addresses that are accepted.
    pub open spec fn accepts(s: Seq<char>) -> bool {
        email_check(encode_utf8(s)) is Ok
    }

    #[verifier::type_invariant]
    spec fn inv(self) -> bool {
        Self::accepts(self.0@)
    }

    /// The address as a string slice.
    pub fn as_str(&self) -> (s: &str)
        ensures
            s@ == self@,
            Self::accepts(s@),
    {
        proof {
            use_type_invariant(self);
        }
        self.0.as_str()
    }

    /// A sample address: `test@gmail.com`.
    pub fn gmail() -> (email: Self)
        ensures
            email@ == "test@gmail.com"@,
    {
        let raw = "test@gmail.com".to_owned();
        proof {
            reveal_strlit("test@gmail.com");
            let bytes = encode_utf8(raw@);
            assert(is_ascii_chars(raw@));
            is_ascii_chars_encode_utf8(raw@);
            assert(bytes[4] == SEPARATOR);
            assert forall|j: int| 4 < j < bytes.len() implies bytes[j] != SEPARATOR by {
                assert(bytes[j] == raw@[j] as u8);
            }
            lemma_last_separator_is(bytes, 4);
        }
        Self(raw)
    }

    /// A raw value that `try_from` rejects: the empty string.
    pub fn bad() -> (raw: String)
        ensures
            raw@ == Seq::<char>::empty(),
            !Self::accepts(raw@),
    {
        String::new()
    }
}

impl TryFromSpecImpl<String> for UserEmail {
    open spec fn obeys_try_from_spec() -> bool {
        true
    }

    closed spec fn try_from_spec(n: String) -> Result<Self, Error> {
        match email_check(encode_utf8(n@)) {
            Ok(()) => Ok(UserEmail(n)),
            Err(e) => Err(e),
        }
    }
}

impl TryFrom<String> for UserEmail {
    type Error = Error;

    /// Accepts the addresses that pass [`email_check`], and says of any other
    /// what is wrong with it.
    fn try_from(n: String) -> (res: Result<Self, Error>)
        ensures
            match res {
                Ok(email) => email@ == n@ && Self::accepts(n@),
                Err(e) => email_check(encode_utf8(n@)) == Err::<(), Error>(e),
            },
    {
        if n.as_str().as_bytes().len() == 0 {
            Err(Error::EmptyString)
        } else {
            match check_address(n.as_str()) {
                Err(e) => Err(e),
                Ok(()) => Ok(Self(n)),
            }
        }
    }
}

impl vstd::std_specs::convert::FromSpecImpl<UserEmail> for String {
    open spec fn obeys_from_spec() -> bool {
        true
    }

    closed spec fn from_spec(n: UserEmail) -> String {
        n.0
    }
}

impl From<UserEmail> for String {
    fn from(n: UserEmail) -> (res: String)
        ensures
            res@ == n@,
    {
        n.0
    }
}

/// Largest identifier a user can have.
pub const USER_ID_MAX_LENGTH: i64 = 2_147_483_647;

/// Identifier of a user, as the identity provider numbers it.
#[derive(Debug, PartialEq, Clone, Copy)]
pub struct UserId(i64);

impl UserId {
    /// The identifiers that are accepted.
    pub open spec fn accepts(n: i64) -> bool {
        0 <= n <= USER_ID_MAX_LENGTH
    }

    #[verifier::type_invariant]
    spec fn inv(self) -> bool {
        Self::accepts(self.0)
    }

    /// The number behind the identifier.
    pub closed spec fn value(self) -> i64 {
        self.0
    }

    /// The number behind the identifier.
    pub fn get(&self) -> (n: i64)
        ensures
            n == self.value(),
            Self::accepts(n),
    {
        proof {
            use_type_invariant(self);
        }
        self.0
    }
}

impl TryFromSpecImpl<i64> for UserId {
    open spec fn obeys_try_from_spec() -> bool {
        true
    }

    closed spec fn try_from_spec(n: i64) -> Result<Self, ()> {
        if Self::accepts(n) {
            Ok(UserId(n))
        } else {
            Err(())
        }
    }
}

impl TryFrom<i64> for UserId {
    type Error = ();

    /// Accepts the identifiers from 0 to [`USER_ID_MAX_LENGTH`], and no others.
    fn try_from(n: i64) -> (res: Result<Self, ()>)
        ensures
            res is Ok <==> Self::accepts(n),
            res matches Ok(id) ==> id.value() == n,
    {
        if n > USER_ID_MAX_LENGTH || n < 0 {
            Err(())
        } else {
            Ok(Self(n))
        }
    }
}

impl vstd::std_specs::convert::FromSpecImpl<UserId> for i64 {
    open spec fn obeys_from_spec() -> bool {
        true
    }

    open spec fn from_spec(n: UserId) -> i64 {
        n.value()
    }
}

impl From<UserId> for i64 {
    fn from(n: UserId) -> (res: i64)
        ensures
            res == n.value(),
            UserId::accepts(res),
    {
        proof {
            use_type_invariant(n);
        }
        n.0
    }
}

impl UserId {
    /// A sample identifier: 443.
    pub fn one() -> (id: Self)
        ensures
            id.value() == 443,
    {
        Self(443)
    }

    /// A second sample identifier: 3000.
    pub fn two() -> (id: Self)
        ensures
            id.value() == 3000,
    {
        Self(3000)
    }
}

/// Login handle of a user: any string but the empty one.
#[derive(Debug, PartialEq)]
pub struct UserLogin(String);

impl Clone for UserLogin {
    fn clone(&self) -> (res: Self)
        ensures
            res@ == self@,
    {
        proof {
            use_type_invariant(self);
        }
        Self(self.0.clone())
    }
}

impl View for UserLogin {
    type V = Seq<char>;

    closed spec fn view(&self) -> Seq<char> {
        self.0@
    }
}

impl UserLogin {
    /// The handles that are accepted.
    pub open spec fn accepts(s: Seq<char>) -> bool {
        s.len() > 0
    }

    #[verifier::type_invariant]
    spec fn inv(self) -> bool {
        Self::accepts(self.0@)
    }

    /// The handle as a string slice.
    pub fn as_str(&self) -> (s: &str)
        ensures
            s@ == self@,
            Self::accepts(s@),
    {
        proof {
            use_type_invariant(self);
        }
        self.0.as_str()
    }

    /// A sample handle: `kent-back`.
    pub fn kent_back() -> (login: Self)
        ensures
            login@ == "kent-back"@,
    {
        proof {
            reveal_strlit("kent-back");
        }
        Self("kent-back".to_owned())
    }

    /// A raw value that `try_from` rejects: the empty string.
    pub fn bad() -> (raw: String)
        ensures
            raw@ == Seq::<char>::empty(),
            !Self::accepts(raw@),
    {
        String::new()
    }
}

impl TryFromSpecImpl<String> for UserLogin {
    open spec fn obeys_try_from_spec() -> bool {
        true
    }

    closed spec fn try_from_spec(n: String) -> Result<Self, ()> {
        if Self::accepts(n@) {
            Ok(UserLogin(n))
        } else {
            Err(())
        }
    }
}

impl TryFrom<String> for UserLogin {
    type Error = ();

    /// Accepts every string but the empty one.
    fn try_from(n: String) -> (res: Result<Self, ()>)
        ensures
            res is Ok <==> Self::accepts(n@),
            res matches Ok(login) ==> login@ == n@,
    {
        if n.as_str().is_empty() {
            Err(())
        } else {
            Ok(Self(n))
        }
    }
}

impl vstd::std_specs::convert::FromSpecImpl<UserLogin> for String {
    open spec fn obeys_from_spec() -> bool {
        true
    }

    closed spec fn from_spec(n: UserLogin) -> String {
        n.0
    }
}

impl From<UserLogin> for String {
    fn from(n: UserLogin) -> (res: String)
        ensures
            res@ == n@,
    {
        n.0
    }
}

/// Display name of a user: any string but the empty one.
#[derive(Debug, PartialEq)]
pub struct UserName(String);

impl Clone for UserName {
    fn clone(&self) -> (res: Self)
        ensures
            res@ == self@,
    {
        proof {
            use_type_invariant(self);
        }
        Self(self.0.clone())
    }
}

impl View for UserName {
    type V = Seq<char>;

    closed spec fn view(&self) -> Seq<char> {
        self.0@
    }
}

impl UserName {
    /// The names that are accepted.
    pub open spec fn accepts(s: Seq<char>) -> bool {
        s.len() > 0
    }

    #[verifier::type_invariant]
    spec fn inv(self) -> bool {
        Self::accepts(self.0@)
    }

    /// The name as a string slice.
    pub fn as_str(&self) -> (s: &str)
        ensures
            s@ == self@,
            Self::accepts(s@),
    {
        proof {
            use_type_invariant(self);
        }
        self.0.as_str()
    }

    /// A sample name: `kent back`.
    pub fn kent_back() -> (name: Self)
        ensures
            name@ == "kent back"@,
    {
        proof {
            reveal_strlit("kent back");
        }
        Self("kent back".to_owned())
    }

    /// A raw value that `try_from` rejects: the empty string.
    pub fn bad() -> (raw: String)
        ensures
            raw@ == Seq::<char>::empty(),
            !Self::accepts(raw@),
    {
        String::new()
    }
}

impl TryFromSpecImpl<String> for UserName {
    open spec fn obeys_try_from_spec() -> bool {
        true
    }

    closed spec fn try_from_spec(n: String) -> Result<Self, ()> {
        if Self::accepts(n@) {
            Ok(UserName(n))
        } else {
            Err(())
        }
    }
}

impl TryFrom<String> for UserName {
    type Error = ();

    /// Accepts every string but the empty one.
    fn try_from(n: String) -> (res: Result<Self, ()>)
        ensures
            res is Ok <==> Self::accepts(n@),
            res matches Ok(name) ==> name@ == n@,
    {
        if n.as_str().is_empty() {
            Err(())
        } else {
            Ok(Self(n))
        }
    }
}

impl vstd::std_specs::convert::FromSpecImpl<UserName> for String {
    open spec fn obeys_from_spec() -> bool {
        true
    }

    closed spec fn from_spec(n: UserName) -> String {
        n.0
    }
}

impl From<UserName> for String {
    fn from(n: UserName) -> (res: String)
        ensures
            res@ == n@,
    {
        n.0
    }
}

/// Address of a user's avatar image: any string but the empty one.
#[derive(Debug, PartialEq)]
pub struct UserAvatar(String);

impl Clone for UserAvatar {
    fn clone(&self) -> (res: Self)
        ensures
            res@ == self@,
    {
        proof {
            use_type_invariant(self);
        }
        Self(self.0.clone())
    }
}

impl View for UserAvatar {
    type V = Seq<char>;

    closed spec fn view(&self) -> Seq<char> {
        self.0@
    }
}

impl UserAvatar {
    /// The addresses that are accepted.
    pub open spec fn accepts(s: Seq<char>) -> bool {
        s.len() > 0
    }

    #[verifier::type_invariant]
    spec fn inv(self) -> bool {
        Self::accepts(self.0@)
    }

    /// The address as a string slice.
    pub fn as_str(&self) -> (s: &str)
        ensures
            s@ == self@,
            Self::accepts(s@),
    {
        proof {
            use_type_invariant(self);
        }
        self.0.as_str()
    }

    /// A sample address: `avatar_url`.
    pub fn user() -> (avatar: Self)
        ensures
            avatar@ == "avatar_url"@,
    {
        proof {
            reveal_strlit("avatar_url");
        }
        Self("avatar_url".to_owned())
    }
}

impl TryFromSpecImpl<String> for UserAvatar {
    open spec fn obeys_try_from_spec() -> bool {
        true
    }

    closed spec fn try_from_spec(n: String) -> Result<Self, ()> {
        if Self::accepts(n@) {
            Ok(UserAvatar(n))
        } else {
            Err(())
        }
    }
}

impl TryFrom<String> for UserAvatar {
    type Error = ();

    /// Accepts every string but the empty one.
    fn try_from(n: String) -> (res: Result<Self, ()>)
        ensures
            res is Ok <==> Self::accepts(n@),
            res matches Ok(avatar) ==> avatar@ == n@,
    {
        if n.as_str().is_empty() {
            Err(())
        } else {
            Ok(Self(n))
        }
    }
}

impl vstd::std_specs::convert::FromSpecImpl<UserAvatar> for String {
    open spec fn obeys_from_spec() -> bool {
        true
    }

    closed spec fn from_spec(n: UserAvatar) -> String {
        n.0
    }
}

impl From<UserAvatar> for String {
    fn from(n: UserAvatar) -> (res: String)
        ensures
            res@ == n@,
    {
        n.0
    }
}

/// Seconds by which the wall clock of every stored instant is ahead of
/// universal time: nine hours.
pub const STORE_OFFSET_SECONDS: i32 = 32_400;

/// An instant with the offset of the wall clock it is shown on.
#[derive(Debug, Clone, Copy, PartialEq, Eq, Structural)]
pub struct Timestamp {
    /// Milliseconds since the Unix epoch, in universal time.
    pub epoch_millis: u64,
    /// Seconds by which the wall clock is ahead of universal time.
    pub offset_seconds: i32,
}

impl Timestamp {
    /// The instant `epoch_millis`, on the wall clock that the store uses.
    pub open spec fn at_spec(epoch_millis: u64) -> Timestamp {
        Timestamp { epoch_millis, offset_seconds: STORE_OFFSET_SECONDS }
    }

    /// The instant `epoch_millis`, on the wall clock that the store uses.
    pub fn at(epoch_millis: u64) -> (t: Self)
        ensures
            t == Self::at_spec(epoch_millis),
    {
        Timestamp { epoch_millis, offset_seconds: STORE_OFFSET_SECONDS }
    }

    /// Whether this instant is later than `other`, whatever their offsets.
    pub open spec fn later_than(self, other: Timestamp) -> bool {
        self.epoch_millis > other.epoch_millis
    }

    /// Whether this instant is later than `other`, whatever their offsets.
    pub fn is_after(&self, other: &Timestamp) -> (b: bool)
        ensures
            b == self.later_than(*other),
    {
        self.epoch_millis > other.epoch_millis
    }
}

/// What a stored user is, as plain values.
pub struct UserRecord {
    pub id: int,
    pub login: Seq<char>,
    pub name: Seq<char>,
    pub avatar_url: Seq<char>,
    pub email: Option<Seq<char>>,
    pub created_at: Timestamp,
    pub updated_at: Timestamp,
}

impl UserRecord {
    /// The record of a user who is stored for the first time at `now`.
    pub open spec fn created(
        id: int,
        login: Seq<char>,
        name: Seq<char>,
        avatar_url: Seq<char>,
        now: Timestamp,
    ) -> UserRecord {
        UserRecord { id, login, name, avatar_url, email: None, created_at: now, updated_at: now }
    }

    /// This record with a new name and avatar, written at `now`.
    pub open spec fn renamed(self, name: Seq<char>, avatar_url: Seq<char>, now: Timestamp) -> UserRecord {
        UserRecord { name, avatar_url, updated_at: now, ..self }
    }
}

/// A stored user.
#[derive(Debug)]
pub struct UserEntity {
    pub id: i64,
    pub login: String,
    pub name: String,
    pub avatar_url: String,
    pub email: Option<String>,
    pub created_at: Timestamp,
    pub updated_at: Timestamp,
}

impl View for UserEntity {
    type V = UserRecord;

    open spec fn view(&self) -> UserRecord {
        UserRecord {
            id: self.id as int,
            login: self.login@,
            name: self.name@,
            avatar_url: self.avatar_url@,
            email: match self.email {
                Some(email) => Some(email@),
                None => None,
            },
            created_at: self.created_at,
            updated_at: self.updated_at,
        }
    }
}

impl Clone for UserEntity {
    fn clone(&self) -> (res: Self)
        ensures
            res@ == self@,
    {
        UserEntity {
            id: self.id,
            login: self.login.clone(),
            name: self.name.clone(),
            avatar_url: self.avatar_url.clone(),
            email: match &self.email {
                Some(email) => Some(email.clone()),
                None => None,
            },
            created_at: self.created_at,
            updated_at: self.updated_at,
        }
    }
}

impl UserEntity {
    /// The user with these values, stored for the first time at `now`:
    /// without an address, created and updated at that instant.
    pub fn new(id: UserId, login: UserLogin, name: UserName, avatar_url: UserAvatar, now: Timestamp) -> (user: Self)
        ensures
            user@ == UserRecord::created(id.value() as int, login@, name@, avatar_url@, now),
    {
        UserEntity {
            id: i64::from(id),
            login: String::from(login),
            name: String::from(name),
            avatar_url: String::from(avatar_url),
            email: None,
            created_at: now,
            updated_at: now,
        }
    }
}

} // verus!
