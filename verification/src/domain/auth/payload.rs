//! The payload of a session token: the claims as JSON.
//!
//! The claims are written in one fixed layout, without any space: the
//! members `exp`, `aud`, `iss` and `user` in this order, and in `user` the
//! members `id`, `login`, `name` and `avatar_url`. A payload is read only in
//! that layout.

use crate::domain::auth::entity::{ClaimSet, Claims, Profile, UserProfile};
use crate::json::{
    decimal, integer, integer_at, lemma_integer_at, lemma_number_at, lemma_optional_at,
    lemma_string_at, lemma_text_at, number_at, optional, optional_at, parse_integer, parse_number,
    parse_optional, parse_string, parse_text, string, string_at, text_at, write_integer,
    write_number, write_optional, write_string, write_text,
};
use vstd::prelude::*;

verus! {

/// `{"exp":`
pub const EXP_KEY: [u8; 7] = [0x7b, 0x22, 0x65, 0x78, 0x70, 0x22, 0x3a];

/// `,"aud":`
pub const AUD_KEY: [u8; 7] = [0x2c, 0x22, 0x61, 0x75, 0x64, 0x22, 0x3a];

/// `,"iss":`
pub const ISS_KEY: [u8; 7] = [0x2c, 0x22, 0x69, 0x73, 0x73, 0x22, 0x3a];

/// `,"user":`
pub const USER_KEY: [u8; 8] = [0x2c, 0x22, 0x75, 0x73, 0x65, 0x72, 0x22, 0x3a];

/// `{"id":`
pub const ID_KEY: [u8; 6] = [0x7b, 0x22, 0x69, 0x64, 0x22, 0x3a];

/// `,"login":`
pub const LOGIN_KEY: [u8; 9] = [0x2c, 0x22, 0x6c, 0x6f, 0x67, 0x69, 0x6e, 0x22, 0x3a];

/// `,"name":`
pub const NAME_KEY: [u8; 8] = [0x2c, 0x22, 0x6e, 0x61, 0x6d, 0x65, 0x22, 0x3a];

/// `,"avatar_url":`
pub const AVATAR_KEY: [u8; 14] = [
    0x2c, 0x22, 0x61, 0x76, 0x61, 0x74, 0x61, 0x72, 0x5f, 0x75, 0x72, 0x6c, 0x22, 0x3a,
];

/// `}`
pub const CLOSE: [u8; 1] = [0x7d];

/// A profile as JSON.
pub open spec fn profile_json(profile: Profile) -> Seq<u8> {
    ID_KEY@ + (integer(profile.id) + (LOGIN_KEY@ + (string(profile.login) + (NAME_KEY@ + (optional(
        profile.name,
    ) + (AVATAR_KEY@ + (string(profile.avatar_url) + CLOSE@)))))))
}

/// Claims as JSON.
pub open spec fn claims_json(claims: ClaimSet) -> Seq<u8> {
    EXP_KEY@ + (decimal(claims.exp) + (AUD_KEY@ + (optional(claims.aud) + (ISS_KEY@ + (optional(
        claims.iss,
    ) + (USER_KEY@ + (profile_json(claims.user) + CLOSE@)))))))
}

/// The profile that stands at `at` in `s`, and where it ends. The identifier
/// is a whole number of 64 bits.
pub open spec fn profile_at(s: Seq<u8>, at: nat) -> Option<(Profile, nat)> {
    match text_at(s, at, ID_KEY@) {
        None => None,
        Some(a) => match integer_at(s, a) {
            None => None,
            Some((id, b)) => if !(i64::MIN <= id <= i64::MAX) {
                None
            } else {
                match text_at(s, b, LOGIN_KEY@) {
                    None => None,
                    Some(c) => match string_at(s, c) {
                        None => None,
                        Some((login, d)) => match text_at(s, d, NAME_KEY@) {
                            None => None,
                            Some(e) => match optional_at(s, e) {
                                None => None,
                                Some((name, f)) => match text_at(s, f, AVATAR_KEY@) {
                                    None => None,
                                    Some(g) => match string_at(s, g) {
                                        None => None,
                                        Some((avatar_url, h)) => match text_at(s, h, CLOSE@) {
                                            None => None,
                                            Some(end) => Some(
                                                (Profile { id, login, name, avatar_url }, end),
                                            ),
                                        },
                                    },
                                },
                            },
                        },
                    },
                }
            },
        },
    }
}

/// The claims that `s` is the JSON of, if it is that of any. The end of the
/// session is a number of 128 bits, and nothing follows the claims.
pub open spec fn claims_of(s: Seq<u8>) -> Option<ClaimSet> {
    match text_at(s, 0, EXP_KEY@) {
        None => None,
        Some(a) => match number_at(s, a) {
            None => None,
            Some((exp, b)) => if exp > u128::MAX {
                None
            } else {
                match text_at(s, b, AUD_KEY@) {
                    None => None,
                    Some(c) => match optional_at(s, c) {
                        None => None,
                        Some((aud, d)) => match text_at(s, d, ISS_KEY@) {
                            None => None,
                            Some(e) => match optional_at(s, e) {
                                None => None,
                                Some((iss, f)) => match text_at(s, f, USER_KEY@) {
                                    None => None,
                                    Some(g) => match profile_at(s, g) {
                                        None => None,
                                        Some((user, h)) => match text_at(s, h, CLOSE@) {
                                            None => None,
                                            Some(end) => if end == s.len() {
                                                Some(ClaimSet { exp, aud, iss, user })
                                            } else {
                                                None
                                            },
                                        },
                                    },
                                },
                            },
                        },
                    },
                }
            },
        },
    }
}

/// What is written in three pieces can be cut after the first piece or after
/// the second.
pub proof fn lemma_regroup(a: Seq<u8>, b: Seq<u8>, c: Seq<u8>)
    ensures
        a + (b + c) == (a + b) + c,
{
    assert(a + (b + c) =~= (a + b) + c);
}

/// A profile is read where it was written.
#[verifier::rlimit(40)]
pub proof fn lemma_profile_at(before: Seq<u8>, profile: Profile, after: Seq<u8>)
    requires
        i64::MIN <= profile.id <= i64::MAX,
    ensures
        profile_at(before + (profile_json(profile) + after), before.len()) == Some(
            (profile, before.len() + profile_json(profile).len()),
        ),
{
    let s = before + (profile_json(profile) + after);
    let r8 = CLOSE@ + after;
    let r7 = string(profile.avatar_url) + r8;
    let r6 = AVATAR_KEY@ + r7;
    let r5 = optional(profile.name) + r6;
    let r4 = NAME_KEY@ + r5;
    let r3 = string(profile.login) + r4;
    let r2 = LOGIN_KEY@ + r3;
    let r1 = integer(profile.id) + r2;
    let w0 = before;
    let w1 = w0 + ID_KEY@;
    let w2 = w1 + integer(profile.id);
    let w3 = w2 + LOGIN_KEY@;
    let w4 = w3 + string(profile.login);
    let w5 = w4 + NAME_KEY@;
    let w6 = w5 + optional(profile.name);
    let w7 = w6 + AVATAR_KEY@;
    let w8 = w7 + string(profile.avatar_url);
    assert(s == w0 + (ID_KEY@ + r1));
    lemma_regroup(w0, ID_KEY@, r1);
    lemma_regroup(w1, integer(profile.id), r2);
    lemma_regroup(w2, LOGIN_KEY@, r3);
    lemma_regroup(w3, string(profile.login), r4);
    lemma_regroup(w4, NAME_KEY@, r5);
    lemma_regroup(w5, optional(profile.name), r6);
    lemma_regroup(w6, AVATAR_KEY@, r7);
    lemma_regroup(w7, string(profile.avatar_url), r8);
    lemma_text_at(w0, ID_KEY@, r1);
    assert(r2[0] == 0x2c);
    lemma_integer_at(w1, profile.id, r2);
    lemma_text_at(w2, LOGIN_KEY@, r3);
    lemma_string_at(w3, profile.login, r4);
    lemma_text_at(w4, NAME_KEY@, r5);
    lemma_optional_at(w5, profile.name, r6);
    lemma_text_at(w6, AVATAR_KEY@, r7);
    lemma_string_at(w7, profile.avatar_url, r8);
    lemma_text_at(w8, CLOSE@, after);
}

/// Claims are read as they were written.
pub proof fn lemma_claims_round_trip(claims: ClaimSet)
    requires
        claims.exp <= u128::MAX,
        i64::MIN <= claims.user.id <= i64::MAX,
    ensures
        claims_of(claims_json(claims)) == Some(claims),
{
    let s = claims_json(claims);
    let empty = Seq::<u8>::empty();
    let r8 = CLOSE@ + empty;
    let r7 = profile_json(claims.user) + r8;
    let r6 = USER_KEY@ + r7;
    let r5 = optional(claims.iss) + r6;
    let r4 = ISS_KEY@ + r5;
    let r3 = optional(claims.aud) + r4;
    let r2 = AUD_KEY@ + r3;
    let r1 = decimal(claims.exp) + r2;
    let w0 = empty;
    let w1 = w0 + EXP_KEY@;
    let w2 = w1 + decimal(claims.exp);
    let w3 = w2 + AUD_KEY@;
    let w4 = w3 + optional(claims.aud);
    let w5 = w4 + ISS_KEY@;
    let w6 = w5 + optional(claims.iss);
    let w7 = w6 + USER_KEY@;
    let w8 = w7 + profile_json(claims.user);
    assert(s =~= w0 + (EXP_KEY@ + r1));
    assert(r8 =~= CLOSE@);
    lemma_regroup(w0, EXP_KEY@, r1);
    lemma_regroup(w1, decimal(claims.exp), r2);
    lemma_regroup(w2, AUD_KEY@, r3);
    lemma_regroup(w3, optional(claims.aud), r4);
    lemma_regroup(w4, ISS_KEY@, r5);
    lemma_regroup(w5, optional(claims.iss), r6);
    lemma_regroup(w6, USER_KEY@, r7);
    lemma_regroup(w7, profile_json(claims.user), r8);
    lemma_text_at(w0, EXP_KEY@, r1);
    assert(r2[0] == 0x2c);
    lemma_number_at(w1, claims.exp, r2);
    lemma_text_at(w2, AUD_KEY@, r3);
    lemma_optional_at(w3, claims.aud, r4);
    lemma_text_at(w4, ISS_KEY@, r5);
    lemma_optional_at(w5, claims.iss, r6);
    lemma_text_at(w6, USER_KEY@, r7);
    lemma_profile_at(w7, claims.user, r8);
    lemma_text_at(w8, CLOSE@, empty);
    assert(w8.len() + CLOSE@.len() == s.len());
}

/// Writes a profile as JSON behind what `out` holds.
fn write_profile(out: &mut Vec<u8>, profile: &UserProfile)
    ensures
        final(out)@ == old(out)@ + profile_json(profile@),
{
    let ghost before = out@;
    write_text(out, ID_KEY.as_slice());
    write_integer(out, profile.id);
    write_text(out, LOGIN_KEY.as_slice());
    write_string(out, profile.login.as_str());
    write_text(out, NAME_KEY.as_slice());
    write_optional(out, &profile.name);
    write_text(out, AVATAR_KEY.as_slice());
    write_string(out, profile.avatar_url.as_str());
    write_text(out, CLOSE.as_slice());
    assert(out@ =~= before + profile_json(profile@));
}

/// Writes the claims as JSON. What is written reads back as the same
/// claims.
pub fn encode_claims(claims: &Claims) -> (payload: Vec<u8>)
    ensures
        payload@ == claims_json(claims@),
        claims_of(payload@) == Some(claims@),
{
    let mut out: Vec<u8> = Vec::new();
    write_text(&mut out, EXP_KEY.as_slice());
    let ghost w1 = out@;
    write_number(&mut out, claims.exp);
    let ghost w2 = out@;
    write_text(&mut out, AUD_KEY.as_slice());
    let ghost w3 = out@;
    write_optional(&mut out, &claims.aud);
    let ghost w4 = out@;
    write_text(&mut out, ISS_KEY.as_slice());
    let ghost w5 = out@;
    write_optional(&mut out, &claims.iss);
    let ghost w6 = out@;
    write_text(&mut out, USER_KEY.as_slice());
    let ghost w7 = out@;
    write_profile(&mut out, &claims.user);
    let ghost w8 = out@;
    write_text(&mut out, CLOSE.as_slice());
    proof {
        let view = claims@;
        let r8 = CLOSE@;
        let r7 = profile_json(view.user) + r8;
        let r6 = USER_KEY@ + r7;
        let r5 = optional(view.iss) + r6;
        let r4 = ISS_KEY@ + r5;
        let r3 = optional(view.aud) + r4;
        let r2 = AUD_KEY@ + r3;
        let r1 = decimal(view.exp) + r2;
        assert(w1 =~= EXP_KEY@);
        assert(claims_json(view) == w1 + r1);
        lemma_regroup(w1, decimal(view.exp), r2);
        lemma_regroup(w2, AUD_KEY@, r3);
        lemma_regroup(w3, optional(view.aud), r4);
        lemma_regroup(w4, ISS_KEY@, r5);
        lemma_regroup(w5, optional(view.iss), r6);
        lemma_regroup(w6, USER_KEY@, r7);
        lemma_regroup(w7, profile_json(view.user), r8);
        assert(out@ == w8 + r8);
        lemma_claims_round_trip(view);
    }
    out
}

/// Reads the profile that stands at `at` and says where it ends.
fn parse_profile(bytes: &[u8], at: usize) -> (res: Option<(UserProfile, usize)>)
    requires
        at <= bytes@.len(),
    ensures
        match profile_at(bytes@, at as nat) {
            Some((profile, end)) => res matches Some((read, stop)) && read@ == profile && stop == end
                && end <= bytes@.len(),
            None => res is None,
        },
{
    let a = match parse_text(bytes, at, ID_KEY.as_slice()) {
        Some(a) => a,
        None => return None,
    };
    let (id, b) = match parse_integer(bytes, a) {
        Some(read) => read,
        None => return None,
    };
    let c = match parse_text(bytes, b, LOGIN_KEY.as_slice()) {
        Some(c) => c,
        None => return None,
    };
    let (login, d) = match parse_string(bytes, c) {
        Some(read) => read,
        None => return None,
    };
    let e = match parse_text(bytes, d, NAME_KEY.as_slice()) {
        Some(e) => e,
        None => return None,
    };
    let (name, f) = match parse_optional(bytes, e) {
        Some(read) => read,
        None => return None,
    };
    let g = match parse_text(bytes, f, AVATAR_KEY.as_slice()) {
        Some(g) => g,
        None => return None,
    };
    let (avatar_url, h) = match parse_string(bytes, g) {
        Some(read) => read,
        None => return None,
    };
    let end = match parse_text(bytes, h, CLOSE.as_slice()) {
        Some(end) => end,
        None => return None,
    };
    Some((UserProfile { id, login, name, avatar_url }, end))
}

/// Claims that may be missing, as plain values.
pub open spec fn claims_view(claims: Option<Claims>) -> Option<ClaimSet> {
    match claims {
        Some(claims) => Some(claims@),
        None => None,
    }
}

/// Reads the claims out of a payload, as [`claims_of`] rules.
pub fn decode_claims(payload: &[u8]) -> (res: Option<Claims>)
    ensures
        claims_view(res) == claims_of(payload@),
{
    let a = match parse_text(payload, 0, EXP_KEY.as_slice()) {
        Some(a) => a,
        None => return None,
    };
    let (exp, b) = match parse_number(payload, a, u128::MAX) {
        Some(read) => read,
        None => return None,
    };
    let c = match parse_text(payload, b, AUD_KEY.as_slice()) {
        Some(c) => c,
        None => return None,
    };
    let (aud, d) = match parse_optional(payload, c) {
        Some(read) => read,
        None => return None,
    };
    let e = match parse_text(payload, d, ISS_KEY.as_slice()) {
        Some(e) => e,
        None => return None,
    };
    let (iss, f) = match parse_optional(payload, e) {
        Some(read) => read,
        None => return None,
    };
    let g = match parse_text(payload, f, USER_KEY.as_slice()) {
        Some(g) => g,
        None => return None,
    };
    let (user, h) = match parse_profile(payload, g) {
        Some(read) => read,
        None => return None,
    };
    let end = match parse_text(payload, h, CLOSE.as_slice()) {
        Some(end) => end,
        None => return None,
    };
    if end != payload.len() {
        return None;
    }
    Some(Claims { exp, aud, iss, user })
}

} // verus!
