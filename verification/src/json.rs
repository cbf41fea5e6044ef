//! The pieces of JSON that a session payload is made of: numbers, strings
//! and fixed texts, each with the function that writes it and the function
//! that reads it back.
//!
//! A reader looks at the bytes that follow a place and says what it read and
//! how many bytes that took. What each reader accepts is a spec function;
//! the lemmas say that a reader reads what its writer wrote, whatever
//! follows.

use crate::text::bytes_begin_with;
use vstd::prelude::*;
use vstd::utf8::*;

verus! {

/// Whether `byte` is a decimal digit.
pub open spec fn is_digit(byte: u8) -> bool {
    0x30 <= byte <= 0x39
}

/// A number in decimal digits, without a sign and without leading zeros.
pub open spec fn decimal(n: nat) -> Seq<u8>
    decreases n,
{
    if n < 10 {
        seq![(0x30 + n) as u8]
    } else {
        decimal(n / 10).push((0x30 + n % 10) as u8)
    }
}

/// How many digits stand at the front of `s`.
pub open spec fn digits_len(s: Seq<u8>) -> nat
    decreases s.len(),
{
    if s.len() > 0 && is_digit(s[0]) {
        1 + digits_len(s.skip(1))
    } else {
        0
    }
}

/// The number that the digits `s` write.
pub open spec fn digits_value(s: Seq<u8>) -> nat
    decreases s.len(),
{
    if s.len() == 0 {
        0
    } else {
        digits_value(s.drop_last()) * 10 + (s.last() - 0x30) as nat
    }
}

/// The number that stands at the front of `s`, and how many bytes it takes:
/// all the digits there, which must be one at least.
pub open spec fn read_number(s: Seq<u8>) -> Option<(nat, nat)> {
    let n = digits_len(s);
    if n == 0 {
        None
    } else {
        Some((digits_value(s.take(n as int)), n))
    }
}

/// The digits at the front of a text are digits, and no digit follows them.
pub proof fn lemma_digits_len(s: Seq<u8>)
    ensures
        digits_len(s) <= s.len(),
        forall|i: int| 0 <= i < digits_len(s) ==> is_digit(#[trigger] s[i]),
        digits_len(s) < s.len() ==> !is_digit(s[digits_len(s) as int]),
    decreases s.len(),
{
    if s.len() > 0 && is_digit(s[0]) {
        let rest = s.skip(1);
        lemma_digits_len(rest);
        assert forall|i: int| 0 <= i < digits_len(s) implies is_digit(#[trigger] s[i]) by {
            if i > 0 {
                assert(s[i] == rest[i - 1]);
            }
        }
        if digits_len(s) < s.len() {
            assert(s[digits_len(s) as int] == rest[digits_len(rest) as int]);
        }
    }
}

/// Digits that are followed by no digit are all the digits at the front.
pub proof fn lemma_digits_len_is(s: Seq<u8>, n: nat)
    requires
        n <= s.len(),
        forall|i: int| 0 <= i < n ==> is_digit(#[trigger] s[i]),
        n < s.len() ==> !is_digit(s[n as int]),
    ensures
        digits_len(s) == n,
    decreases n,
{
    if n > 0 {
        let rest = s.skip(1);
        assert(is_digit(s[0]));
        assert forall|i: int| 0 <= i < n - 1 implies is_digit(#[trigger] rest[i]) by {
            assert(rest[i] == s[i + 1]);
        }
        if n < s.len() {
            assert(rest[n - 1] == s[n as int]);
        }
        lemma_digits_len_is(rest, (n - 1) as nat);
    }
}

/// What a number is written as: digits, one at least, that write the
/// number.
pub proof fn lemma_decimal(n: nat)
    ensures
        decimal(n).len() >= 1,
        forall|i: int| 0 <= i < decimal(n).len() ==> is_digit(#[trigger] decimal(n)[i]),
        digits_value(decimal(n)) == n,
    decreases n,
{
    if n < 10 {
        let s = decimal(n);
        assert(s.drop_last() =~= Seq::<u8>::empty());
        assert(digits_value(s.drop_last()) == 0);
    } else {
        lemma_decimal(n / 10);
        let s = decimal(n);
        assert(s.drop_last() =~= decimal(n / 10));
        assert(s.last() == (0x30 + n % 10) as u8);
    }
}

/// A number is read as it was written, if no digit follows it.
pub proof fn lemma_read_decimal(n: nat, rest: Seq<u8>)
    requires
        rest.len() == 0 || !is_digit(rest[0]),
    ensures
        read_number(decimal(n) + rest) == Some((n, decimal(n).len())),
{
    let written = decimal(n);
    let s = written + rest;
    lemma_decimal(n);
    assert forall|i: int| 0 <= i < written.len() implies is_digit(#[trigger] s[i]) by {
        assert(s[i] == written[i]);
    }
    if written.len() < s.len() {
        assert(s[written.len() as int] == rest[0]);
    }
    lemma_digits_len_is(s, written.len());
    assert(s.take(written.len() as int) =~= written);
}

/// Digits write no smaller a number than the digits at their front.
pub proof fn lemma_digits_value_grows(s: Seq<u8>, n: int)
    requires
        0 <= n <= s.len(),
    ensures
        digits_value(s.take(n)) <= digits_value(s),
    decreases s.len() - n,
{
    if n < s.len() {
        lemma_digits_value_grows(s, n + 1);
        assert(s.take(n + 1).drop_last() =~= s.take(n));
        assert(digits_value(s.take(n + 1)) >= digits_value(s.take(n))) by (nonlinear_arith)
            requires
                digits_value(s.take(n + 1)) == digits_value(s.take(n)) * 10 + (s.take(n + 1).last()
                    - 0x30) as nat,
        ;
    } else {
        assert(s.take(n) =~= s);
    }
}

/// Writes `n` in decimal digits behind what `out` holds.
pub fn write_number(out: &mut Vec<u8>, n: u128)
    ensures
        final(out)@ == old(out)@ + decimal(n as nat),
    decreases n,
{
    if n >= 10 {
        write_number(out, n / 10);
    }
    out.push((n % 10) as u8 + 0x30);
    assert(out@ =~= old(out)@ + decimal(n as nat));
}

/// Reads the number that stands at `at`, if it is `max` at most, and says
/// where it ends.
pub fn parse_number(bytes: &[u8], at: usize, max: u128) -> (res: Option<(u128, usize)>)
    ensures
        match number_at(bytes@, at as nat) {
            Some((value, end)) => if value <= max {
                res matches Some((read, stop)) && read == value && stop == end && end <= bytes@.len()
            } else {
                res is None
            },
            None => res is None,
        },
{
    if at > bytes.len() {
        return None;
    }
    let ghost s = bytes@.skip(at as int);
    proof {
        lemma_digits_len(s);
    }
    let mut value: u128 = 0;
    let mut i: usize = at;
    while i < bytes.len() && bytes[i] >= 0x30 && bytes[i] <= 0x39
        invariant
            at <= i <= bytes@.len(),
            s == bytes@.skip(at as int),
            i - at <= digits_len(s),
            value == digits_value(s.take(i - at)),
            value <= max,
        decreases bytes@.len() - i,
    {
        let digit = (bytes[i] - 0x30) as u128;
        proof {
            let n = (i - at) as int;
            lemma_digits_len(s);
            assert(s[n] == bytes@[i as int]);
            assert(is_digit(s[n]));
            assert(n < digits_len(s));
            assert(s.take(n + 1).drop_last() =~= s.take(n));
            assert(s.take(n + 1).last() == s[n]);
            lemma_digits_value_grows(s.take(digits_len(s) as int), n + 1);
            assert(s.take(digits_len(s) as int).take(n + 1) =~= s.take(n + 1));
        }
        let next = match value.checked_mul(10) {
            Some(tens) => tens.checked_add(digit),
            None => None,
        };
        match next {
            Some(next) if next <= max => {
                value = next;
            },
            _ => {
                return None;
            },
        }
        i += 1;
    }
    proof {
        let n = (i - at) as int;
        lemma_digits_len(s);
        if i < bytes@.len() {
            assert(s[n] == bytes@[i as int]);
        }
        if n < digits_len(s) {
            assert(is_digit(s[n]));
        }
    }
    if i == at {
        None
    } else {
        Some((value, i))
    }
}

/// A whole number in decimal digits, with `-` before it if it is negative.
pub open spec fn integer(n: int) -> Seq<u8> {
    if n < 0 {
        seq![0x2du8] + decimal((-n) as nat)
    } else {
        decimal(n as nat)
    }
}

/// The whole number that stands at the front of `s`, and how many bytes it
/// takes: a number, or `-` and a number.
pub open spec fn read_integer(s: Seq<u8>) -> Option<(int, nat)> {
    if s.len() > 0 && s[0] == 0x2d {
        match read_number(s.skip(1)) {
            Some((value, taken)) => Some((-(value as int), taken + 1)),
            None => None,
        }
    } else {
        match read_number(s) {
            Some((value, taken)) => Some((value as int, taken)),
            None => None,
        }
    }
}

/// A whole number is read as it was written, if no digit follows it.
pub proof fn lemma_read_integer(n: int, rest: Seq<u8>)
    requires
        rest.len() == 0 || !is_digit(rest[0]),
    ensures
        read_integer(integer(n) + rest) == Some((n, integer(n).len())),
{
    let s = integer(n) + rest;
    if n < 0 {
        lemma_read_decimal((-n) as nat, rest);
        assert(s.skip(1) =~= decimal((-n) as nat) + rest);
        assert(s[0] == 0x2d);
    } else {
        lemma_read_decimal(n as nat, rest);
        lemma_decimal(n as nat);
        assert(s[0] == decimal(n as nat)[0]);
    }
}

/// Writes `n` in decimal digits behind what `out` holds, with `-` before it
/// if it is negative.
pub fn write_integer(out: &mut Vec<u8>, n: i64)
    ensures
        final(out)@ == old(out)@ + integer(n as int),
{
    if n < 0 {
        out.push(0x2d);
        let size = (-(n as i128)) as u128;
        write_number(out, size);
        assert(out@ =~= old(out)@ + integer(n as int));
    } else {
        write_number(out, n as u128);
    }
}

/// Reads the whole number that stands at `at`, if it is one of 64 bits, and
/// says where it ends.
pub fn parse_integer(bytes: &[u8], at: usize) -> (res: Option<(i64, usize)>)
    ensures
        match integer_at(bytes@, at as nat) {
            Some((value, end)) => if i64::MIN <= value <= i64::MAX {
                res matches Some((read, stop)) && read == value && stop == end && end <= bytes@.len()
            } else {
                res is None
            },
            None => res is None,
        },
{
    if at > bytes.len() {
        return None;
    }
    if at < bytes.len() && bytes[at] == 0x2d {
        assert(bytes@.skip(at as int).skip(1) =~= bytes@.skip(at + 1));
        match parse_number(bytes, at + 1, 0x8000_0000_0000_0000) {
            Some((size, end)) => Some(((-(size as i128)) as i64, end)),
            None => None,
        }
    } else {
        match parse_number(bytes, at, 0x7fff_ffff_ffff_ffff) {
            Some((size, end)) => Some((size as i64, end)),
            None => None,
        }
    }
}

/// Writes `text` behind what `out` holds.
pub fn write_text(out: &mut Vec<u8>, text: &[u8])
    ensures
        final(out)@ == old(out)@ + text@,
{
    out.extend_from_slice(text);
}

/// Says where `text` ends if it stands at `at`.
pub fn parse_text(bytes: &[u8], at: usize, text: &[u8]) -> (res: Option<usize>)
    ensures
        match text_at(bytes@, at as nat, text@) {
            Some(end) => res matches Some(stop) && stop == end && end <= bytes@.len(),
            None => res is None,
        },
{
    if at > bytes.len() {
        return None;
    }
    let ghost s = bytes@.skip(at as int);
    if text.len() > bytes.len() - at {
        return None;
    }
    let length = bytes.len();
    let mut i: usize = 0;
    while i < text.len()
        invariant
            i <= text@.len(),
            at + text@.len() <= bytes@.len(),
            length == bytes@.len(),
            s == bytes@.skip(at as int),
            forall|j: int| 0 <= j < i ==> s[j] == text@[j],
        decreases text@.len() - i,
    {
        if bytes[at + i] != text[i] {
            assert(s.take(text@.len() as int)[i as int] == s[i as int]);
            return None;
        }
        i += 1;
    }
    assert(s.take(text@.len() as int) =~= text@);
    Some(at + text.len())
}

/// The digit of base 16 for a number below 16, a letter in lower case.
pub open spec fn hex_digit(n: int) -> u8 {
    if n < 10 {
        (0x30 + n) as u8
    } else {
        (0x57 + n) as u8
    }
}

/// The number that a digit of base 16 stands for, a letter in either case.
pub open spec fn hex_value(byte: u8) -> Option<int> {
    if 0x30 <= byte <= 0x39 {
        Some(byte - 0x30)
    } else if 0x61 <= byte <= 0x66 {
        Some(byte - 0x57)
    } else if 0x41 <= byte <= 0x46 {
        Some(byte - 0x37)
    } else {
        None
    }
}

/// A byte of a string as it is written between the quotes: the quote, the
/// backslash and the bytes below 0x20 are escaped, every other byte stands
/// for itself.
pub open spec fn escaped(byte: u8) -> Seq<u8> {
    if byte == 0x22 {
        seq![0x5cu8, 0x22u8]
    } else if byte == 0x5c {
        seq![0x5cu8, 0x5cu8]
    } else if byte == 0x08 {
        seq![0x5cu8, 0x62u8]
    } else if byte == 0x0c {
        seq![0x5cu8, 0x66u8]
    } else if byte == 0x0a {
        seq![0x5cu8, 0x6eu8]
    } else if byte == 0x0d {
        seq![0x5cu8, 0x72u8]
    } else if byte == 0x09 {
        seq![0x5cu8, 0x74u8]
    } else if byte < 0x20 {
        seq![0x5cu8, 0x75u8, 0x30u8, 0x30u8, hex_digit(byte as int / 16), hex_digit(byte as int % 16)]
    } else {
        seq![byte]
    }
}

/// The bytes of a string as they are written between the quotes.
pub open spec fn escape(content: Seq<u8>) -> Seq<u8>
    decreases content.len(),
{
    if content.len() == 0 {
        Seq::empty()
    } else {
        escaped(content[0]) + escape(content.skip(1))
    }
}

/// A string as it is written: its bytes in UTF-8, escaped, between quotes.
pub open spec fn string(text: Seq<char>) -> Seq<u8> {
    seq![0x22u8] + (escape(encode_utf8(text)) + seq![0x22u8])
}

/// The byte that stands at the front of what is between the quotes, and how
/// many bytes it takes.
///
/// After a backslash come a quote, a backslash, a slash, one of `b`, `f`,
/// `n`, `r`, `t`, or `u00` and two digits of base 16 that give a number below
/// 0x80. A byte below 0x20 cannot stand for itself.
pub open spec fn read_byte(s: Seq<u8>) -> Option<(u8, nat)> {
    if s.len() == 0 {
        None
    } else if s[0] == 0x5c {
        if s.len() < 2 {
            None
        } else if s[1] == 0x22 || s[1] == 0x5c || s[1] == 0x2f {
            Some((s[1], 2))
        } else if s[1] == 0x62 {
            Some((0x08u8, 2))
        } else if s[1] == 0x66 {
            Some((0x0cu8, 2))
        } else if s[1] == 0x6e {
            Some((0x0au8, 2))
        } else if s[1] == 0x72 {
            Some((0x0du8, 2))
        } else if s[1] == 0x74 {
            Some((0x09u8, 2))
        } else if s[1] == 0x75 && s.len() >= 6 && s[2] == 0x30 && s[3] == 0x30 && hex_value(s[4]) is Some
            && hex_value(s[5]) is Some && hex_value(s[4])->0 < 8 {
            Some(((hex_value(s[4])->0 * 16 + hex_value(s[5])->0) as u8, 6))
        } else {
            None
        }
    } else if s[0] < 0x20 {
        None
    } else {
        Some((s[0], 1))
    }
}

/// What stands between the front of `s` and the quote that closes the
/// string, and how many bytes it takes with that quote.
pub open spec fn read_content(s: Seq<u8>) -> Option<(Seq<u8>, nat)>
    decreases s.len(),
{
    if s.len() == 0 {
        None
    } else if s[0] == 0x22 {
        Some((Seq::empty(), 1))
    } else {
        match read_byte(s) {
            Some((byte, taken)) => match read_content(s.skip(taken as int)) {
                Some((content, more)) => Some((seq![byte] + content, taken + more)),
                None => None,
            },
            None => None,
        }
    }
}

/// The string that stands at the front of `s`, and how many bytes it takes:
/// a quote, what [`read_content`] reads, which must be text in UTF-8, and
/// the closing quote.
pub open spec fn read_string(s: Seq<u8>) -> Option<(Seq<char>, nat)> {
    if s.len() > 0 && s[0] == 0x22 {
        match read_content(s.skip(1)) {
            Some((content, taken)) => if valid_utf8(content) {
                Some((decode_utf8(content), taken + 1))
            } else {
                None
            },
            None => None,
        }
    } else {
        None
    }
}

/// A byte is read as it was written, and what was written for it begins
/// with no quote.
pub proof fn lemma_read_escaped(byte: u8, rest: Seq<u8>)
    ensures
        read_byte(escaped(byte) + rest) == Some((byte, escaped(byte).len())),
        (escaped(byte) + rest)[0] != 0x22,
        1 <= escaped(byte).len() <= 6,
{
    let s = escaped(byte) + rest;
    let written = escaped(byte);
    assert forall|i: int| 0 <= i < written.len() implies s[i] == written[i] by {}
    if byte < 0x20 && byte != 0x08 && byte != 0x0c && byte != 0x0a && byte != 0x0d && byte != 0x09 {
        assert(s[0] == 0x5c && s[1] == 0x75 && s[2] == 0x30 && s[3] == 0x30);
        assert(s[4] == hex_digit(byte as int / 16));
        assert(s[5] == hex_digit(byte as int % 16));
        assert(hex_value(s[4]) == Some(byte as int / 16));
        assert(hex_value(s[5]) == Some(byte as int % 16));
    } else if byte == 0x22 || byte == 0x5c || byte == 0x08 || byte == 0x0c || byte == 0x0a || byte
        == 0x0d || byte == 0x09 {
        assert(s[0] == 0x5c);
        assert(s[1] == written[1]);
    } else {
        assert(s[0] == byte);
    }
}

/// What stands between the quotes is read as it was written.
pub proof fn lemma_read_escape(content: Seq<u8>, rest: Seq<u8>)
    ensures
        read_content(escape(content) + (seq![0x22u8] + rest)) == Some(
            (content, escape(content).len() + 1),
        ),
    decreases content.len(),
{
    let tail = seq![0x22u8] + rest;
    let s = escape(content) + tail;
    if content.len() == 0 {
        assert(s[0] == 0x22);
    } else {
        let head = escaped(content[0]);
        let after = escape(content.skip(1)) + tail;
        assert(s =~= head + after);
        lemma_read_escaped(content[0], after);
        assert(s.skip(head.len() as int) =~= after);
        lemma_read_escape(content.skip(1), rest);
        assert(seq![content[0]] + content.skip(1) =~= content);
    }
}

/// A string is read as it was written, whatever follows it.
pub proof fn lemma_read_string(text: Seq<char>, rest: Seq<u8>)
    ensures
        read_string(string(text) + rest) == Some((text, string(text).len())),
{
    let content = encode_utf8(text);
    let s = string(text) + rest;
    assert(s[0] == 0x22);
    assert(s.skip(1) =~= escape(content) + (seq![0x22u8] + rest));
    lemma_read_escape(content, rest);
    encode_utf8_valid_utf8(text);
    encode_utf8_decode_utf8(text);
}

/// The digit of base 16 for a number below 16.
fn hex_of(n: u8) -> (digit: u8)
    requires
        n < 16,
    ensures
        digit == hex_digit(n as int),
{
    if n < 10 {
        0x30 + n
    } else {
        0x57 + n
    }
}

/// The number that a digit of base 16 stands for.
fn value_of_hex(byte: u8) -> (value: Option<u8>)
    ensures
        match value {
            Some(value) => hex_value(byte) == Some(value as int) && value < 16,
            None => hex_value(byte) is None,
        },
{
    if 0x30 <= byte && byte <= 0x39 {
        Some(byte - 0x30)
    } else if 0x61 <= byte && byte <= 0x66 {
        Some(byte - 0x57)
    } else if 0x41 <= byte && byte <= 0x46 {
        Some(byte - 0x37)
    } else {
        None
    }
}

/// Writes a string behind what `out` holds.
pub fn write_string(out: &mut Vec<u8>, text: &str)
    ensures
        final(out)@ == old(out)@ + string(text@),
{
    let content = text.as_bytes();
    let ghost before = out@;
    out.push(0x22);
    assert(content@.skip(0) =~= content@);
    assert(out@ + escape(content@) =~= before + (seq![0x22u8] + escape(content@)));
    let mut i: usize = 0;
    while i < content.len()
        invariant
            i <= content@.len(),
            content@ == encode_utf8(text@),
            out@ + escape(content@.skip(i as int)) == before + (seq![0x22u8] + escape(content@)),
        decreases content@.len() - i,
    {
        let byte = content[i];
        let ghost so_far = out@;
        let ghost rest = content@.skip(i as int);
        if byte == 0x22 {
            out.push(0x5c);
            out.push(0x22);
        } else if byte == 0x5c {
            out.push(0x5c);
            out.push(0x5c);
        } else if byte == 0x08 {
            out.push(0x5c);
            out.push(0x62);
        } else if byte == 0x0c {
            out.push(0x5c);
            out.push(0x66);
        } else if byte == 0x0a {
            out.push(0x5c);
            out.push(0x6e);
        } else if byte == 0x0d {
            out.push(0x5c);
            out.push(0x72);
        } else if byte == 0x09 {
            out.push(0x5c);
            out.push(0x74);
        } else if byte < 0x20 {
            out.push(0x5c);
            out.push(0x75);
            out.push(0x30);
            out.push(0x30);
            out.push(hex_of(byte / 16));
            out.push(hex_of(byte % 16));
        } else {
            out.push(byte);
        }
        proof {
            assert(out@ =~= so_far + escaped(byte));
            assert(rest[0] == byte);
            assert(rest.skip(1) =~= content@.skip(i + 1));
            assert(so_far + escape(rest) =~= out@ + escape(content@.skip(i + 1)));
        }
        i += 1;
    }
    out.push(0x22);
    proof {
        assert(content@.skip(content@.len() as int) =~= Seq::<u8>::empty());
        assert(out@ =~= before + string(text@));
    }
}

/// Calls `String::from_utf8`, which makes a string of bytes that are text in
/// UTF-8 and refuses any other bytes.
#[verifier::external_body]
fn text_of(bytes: Vec<u8>) -> (res: Option<String>)
    ensures
        res is Some <==> valid_utf8(bytes@),
        res matches Some(text) ==> encode_utf8(text@) == bytes@,
{
    String::from_utf8(bytes).ok()
}

/// Reads the string that stands at `at` and says where it ends.
pub fn parse_string(bytes: &[u8], at: usize) -> (res: Option<(String, usize)>)
    ensures
        match string_at(bytes@, at as nat) {
            Some((text, end)) => res matches Some((read, stop)) && read@ == text && stop == end
                && end <= bytes@.len(),
            None => res is None,
        },
{
    if at > bytes.len() {
        return None;
    }
    let length = bytes.len();
    if at >= length || bytes[at] != 0x22 {
        return None;
    }
    let ghost s = bytes@.skip(at + 1);
    assert(bytes@.skip(at as int).skip(1) =~= s);
    let mut content: Vec<u8> = Vec::new();
    let mut i: usize = at + 1;
    loop
        invariant
            at < i <= length,
            length == bytes@.len(),
            bytes@[at as int] == 0x22,
            s == bytes@.skip(at + 1),
            s == bytes@.skip(at as int).skip(1),
            read_content(s) == match read_content(bytes@.skip(i as int)) {
                Some((more, taken)) => Some((content@ + more, (i - at - 1 + taken) as nat)),
                None => None,
            },
        ensures
            i < length,
            read_content(s) == Some((content@, (i - at) as nat)),
        decreases length - i,
    {
        let ghost here = bytes@.skip(i as int);
        if i >= length {
            return None;
        }
        let byte = bytes[i];
        assert(here[0] == byte);
        if byte == 0x22 {
            proof {
                assert(content@ + Seq::<u8>::empty() =~= content@);
            }
            break;
        }
        let (read, taken): (u8, usize) = if byte == 0x5c {
            if length - i < 2 {
                return None;
            }
            let next = bytes[i + 1];
            assert(here[1] == next);
            if next == 0x22 || next == 0x5c || next == 0x2f {
                (next, 2)
            } else if next == 0x62 {
                (0x08, 2)
            } else if next == 0x66 {
                (0x0c, 2)
            } else if next == 0x6e {
                (0x0a, 2)
            } else if next == 0x72 {
                (0x0d, 2)
            } else if next == 0x74 {
                (0x09, 2)
            } else if next == 0x75 {
                if length - i < 6 {
                    return None;
                }
                assert(here[2] == bytes@[i + 2] && here[3] == bytes@[i + 3] && here[4] == bytes@[i
                    + 4] && here[5] == bytes@[i + 5]);
                if bytes[i + 2] != 0x30 || bytes[i + 3] != 0x30 {
                    return None;
                }
                match (value_of_hex(bytes[i + 4]), value_of_hex(bytes[i + 5])) {
                    (Some(high), Some(low)) => {
                        if high >= 8 {
                            return None;
                        }
                        (high * 16 + low, 6)
                    },
                    _ => {
                        return None;
                    },
                }
            } else {
                return None;
            }
        } else if byte < 0x20 {
            return None;
        } else {
            (byte, 1)
        };
        proof {
            assert(read_byte(here) == Some((read, taken as nat)));
            assert(here.skip(taken as int) =~= bytes@.skip(i + taken));
            let after = read_content(bytes@.skip(i + taken));
            if let Some((more, _)) = after {
                assert(content@ + (seq![read] + more) =~= content@.push(read) + more);
            }
        }
        content.push(read);
        i += taken;
    }
    let end = i + 1;
    match text_of(content) {
        Some(text) => {
            proof {
                encode_utf8_decode_utf8(text@);
            }
            Some((text, end))
        },
        None => None,
    }
}

/// Where `text` ends if it stands at `at` in `s`.
pub open spec fn text_at(s: Seq<u8>, at: nat, text: Seq<u8>) -> Option<nat> {
    if at <= s.len() && bytes_begin_with(s.skip(at as int), text) {
        Some(at + text.len())
    } else {
        None
    }
}

/// The number that stands at `at` in `s`, and where it ends.
pub open spec fn number_at(s: Seq<u8>, at: nat) -> Option<(nat, nat)> {
    if at > s.len() {
        None
    } else {
        match read_number(s.skip(at as int)) {
            Some((value, taken)) => Some((value, at + taken)),
            None => None,
        }
    }
}

/// The whole number that stands at `at` in `s`, and where it ends.
pub open spec fn integer_at(s: Seq<u8>, at: nat) -> Option<(int, nat)> {
    if at > s.len() {
        None
    } else {
        match read_integer(s.skip(at as int)) {
            Some((value, taken)) => Some((value, at + taken)),
            None => None,
        }
    }
}

/// The string that stands at `at` in `s`, and where it ends.
pub open spec fn string_at(s: Seq<u8>, at: nat) -> Option<(Seq<char>, nat)> {
    if at > s.len() {
        None
    } else {
        match read_string(s.skip(at as int)) {
            Some((text, taken)) => Some((text, at + taken)),
            None => None,
        }
    }
}

/// The text `null`.
pub const NULL: [u8; 4] = [0x6e, 0x75, 0x6c, 0x6c];

/// A string that may be missing as it is written: the string, or `null`.
pub open spec fn optional(text: Option<Seq<char>>) -> Seq<u8> {
    match text {
        Some(text) => string(text),
        None => NULL@,
    }
}

/// The string that stands at `at` in `s` or is missing there, and where
/// that ends.
pub open spec fn optional_at(s: Seq<u8>, at: nat) -> Option<(Option<Seq<char>>, nat)> {
    match text_at(s, at, NULL@) {
        Some(end) => Some((None, end)),
        None => match string_at(s, at) {
            Some((text, end)) => Some((Some(text), end)),
            None => None,
        },
    }
}

/// A text stands where it was written.
pub proof fn lemma_text_at(before: Seq<u8>, text: Seq<u8>, after: Seq<u8>)
    ensures
        text_at(before + (text + after), before.len(), text) == Some(before.len() + text.len()),
{
    let s = before + (text + after);
    assert(s.skip(before.len() as int) =~= text + after);
    assert((text + after).take(text.len() as int) =~= text);
}

/// A number is read where it was written, if no digit follows it.
pub proof fn lemma_number_at(before: Seq<u8>, n: nat, after: Seq<u8>)
    requires
        after.len() == 0 || !is_digit(after[0]),
    ensures
        number_at(before + (decimal(n) + after), before.len(), ) == Some(
            (n, before.len() + decimal(n).len()),
        ),
{
    let s = before + (decimal(n) + after);
    assert(s.skip(before.len() as int) =~= decimal(n) + after);
    lemma_read_decimal(n, after);
}

/// A whole number is read where it was written, if no digit follows it.
pub proof fn lemma_integer_at(before: Seq<u8>, n: int, after: Seq<u8>)
    requires
        after.len() == 0 || !is_digit(after[0]),
    ensures
        integer_at(before + (integer(n) + after), before.len()) == Some(
            (n, before.len() + integer(n).len()),
        ),
{
    let s = before + (integer(n) + after);
    assert(s.skip(before.len() as int) =~= integer(n) + after);
    lemma_read_integer(n, after);
}

/// A string is read where it was written.
pub proof fn lemma_string_at(before: Seq<u8>, text: Seq<char>, after: Seq<u8>)
    ensures
        string_at(before + (string(text) + after), before.len()) == Some(
            (text, before.len() + string(text).len()),
        ),
{
    let s = before + (string(text) + after);
    assert(s.skip(before.len() as int) =~= string(text) + after);
    lemma_read_string(text, after);
}

/// A string that may be missing is read where it was written.
pub proof fn lemma_optional_at(before: Seq<u8>, text: Option<Seq<char>>, after: Seq<u8>)
    ensures
        optional_at(before + (optional(text) + after), before.len()) == Some(
            (text, before.len() + optional(text).len()),
        ),
{
    let s = before + (optional(text) + after);
    match text {
        Some(written) => {
            lemma_string_at(before, written, after);
            assert(s.skip(before.len() as int) =~= string(written) + after);
            let here = s.skip(before.len() as int);
            assert(here[0] == 0x22);
            if bytes_begin_with(here, NULL@) {
                assert(here.take(4)[0] == here[0]);
                assert(NULL@[0] == 0x6e);
            }
        },
        None => {
            lemma_text_at(before, NULL@, after);
        },
    }
}

/// Writes a string behind what `out` holds, or `null` where there is none.
pub fn write_optional(out: &mut Vec<u8>, text: &Option<String>)
    ensures
        final(out)@ == old(out)@ + optional(
            match *text {
                Some(text) => Some(text@),
                None => None,
            },
        ),
{
    match text {
        Some(text) => write_string(out, text.as_str()),
        None => write_text(out, NULL.as_slice()),
    }
}

/// Reads the string that stands at `at` or is missing there, and says where
/// that ends.
pub fn parse_optional(bytes: &[u8], at: usize) -> (res: Option<(Option<String>, usize)>)
    ensures
        match optional_at(bytes@, at as nat) {
            Some((text, end)) => res matches Some((read, stop)) && stop == end && end <= bytes@.len()
                && text == match read {
                Some(read) => Some(read@),
                None => None,
            },
            None => res is None,
        },
{
    match parse_text(bytes, at, NULL.as_slice()) {
        Some(end) => Some((None, end)),
        None => match parse_string(bytes, at) {
            Some((text, end)) => Some((Some(text), end)),
            None => None,
        },
    }
}

} // verus!
