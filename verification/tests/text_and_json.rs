use decafo::json::{
    parse_integer, parse_number, parse_optional, parse_string, parse_text, write_integer,
    write_number, write_optional, write_string, write_text,
};
use decafo::text::{rsplit_once, starts_with};

fn written<F: FnOnce(&mut Vec<u8>)>(write: F) -> String {
    let mut out = b">".to_vec();
    write(&mut out);
    String::from_utf8(out).unwrap()
}

#[test]
fn text_is_cut_at_the_last_separator() {
    assert_eq!(rsplit_once("a.b.c", b'.'), Some(("a.b", "c")));
    assert_eq!(rsplit_once("a.", b'.'), Some(("a", "")));
    assert_eq!(rsplit_once(".", b'.'), Some(("", "")));
    assert_eq!(rsplit_once("abc", b'.'), None);
    assert_eq!(rsplit_once("", b'.'), None);
    assert_eq!(rsplit_once("\u{e9}.\u{1f600}", b'.'), Some(("\u{e9}", "\u{1f600}")));
    // The bytes of a character of several bytes are never mistaken for a separator.
    assert_eq!(rsplit_once("\u{12e}", 0x2e), None);
}

#[test]
fn numbers_are_written_in_decimal() {
    assert_eq!(written(|out| write_number(out, 0)), ">0");
    assert_eq!(written(|out| write_number(out, 9)), ">9");
    assert_eq!(written(|out| write_number(out, 10)), ">10");
    assert_eq!(written(|out| write_number(out, 1_666_003_600_000)), ">1666003600000");
    assert_eq!(
        written(|out| write_number(out, u128::MAX)),
        ">340282366920938463463374607431768211455"
    );
    assert_eq!(written(|out| write_integer(out, 0)), ">0");
    assert_eq!(written(|out| write_integer(out, -1)), ">-1");
    assert_eq!(written(|out| write_integer(out, i64::MAX)), ">9223372036854775807");
    assert_eq!(written(|out| write_integer(out, i64::MIN)), ">-9223372036854775808");
}

#[test]
fn numbers_are_read_up_to_the_first_byte_that_is_no_digit() {
    assert_eq!(parse_number(b"x12,", 1, u128::MAX), Some((12, 3)));
    assert_eq!(parse_number(b"12", 0, u128::MAX), Some((12, 2)));
    assert_eq!(parse_number(b"007", 0, u128::MAX), Some((7, 3)));
    assert_eq!(parse_number(b"12", 0, 12), Some((12, 2)));
    assert_eq!(parse_number(b"12", 0, 11), None);
    assert_eq!(parse_number(b"", 0, u128::MAX), None);
    assert_eq!(parse_number(b"a", 0, u128::MAX), None);
    assert_eq!(parse_number(b"-1", 0, u128::MAX), None);
    assert_eq!(parse_number(b"1", 1, u128::MAX), None);
    assert_eq!(parse_number(b"1", 2, u128::MAX), None);
    assert_eq!(
        parse_number(b"340282366920938463463374607431768211455", 0, u128::MAX),
        Some((u128::MAX, 39))
    );
    assert_eq!(parse_number(b"340282366920938463463374607431768211456", 0, u128::MAX), None);
    assert_eq!(parse_number(b"3402823669209384634633746074317682114550", 0, u128::MAX), None);
}

#[test]
fn whole_numbers_are_read_with_their_sign() {
    assert_eq!(parse_integer(b"-12}", 0), Some((-12, 3)));
    assert_eq!(parse_integer(b"12", 0), Some((12, 2)));
    assert_eq!(parse_integer(b"-0", 0), Some((0, 2)));
    assert_eq!(parse_integer(b"-", 0), None);
    assert_eq!(parse_integer(b"+1", 0), None);
    assert_eq!(parse_integer(b"--1", 0), None);
    assert_eq!(parse_integer(b"9223372036854775807", 0), Some((i64::MAX, 19)));
    assert_eq!(parse_integer(b"9223372036854775808", 0), None);
    assert_eq!(parse_integer(b"-9223372036854775808", 0), Some((i64::MIN, 20)));
    assert_eq!(parse_integer(b"-9223372036854775809", 0), None);
    assert_eq!(parse_integer(b"1", 5), None);
}

#[test]
fn fixed_texts_are_found_where_they_stand() {
    assert_eq!(written(|out| write_text(out, b"null")), ">null");
    assert_eq!(parse_text(b"xnull", 1, b"null"), Some(5));
    assert_eq!(parse_text(b"xnull", 0, b"null"), None);
    assert_eq!(parse_text(b"nul", 0, b"null"), None);
    assert_eq!(parse_text(b"null", 0, b""), Some(0));
    assert_eq!(parse_text(b"null", 4, b""), Some(4));
    assert_eq!(parse_text(b"null", 5, b""), None);
}

#[test]
fn strings_are_written_between_quotes_with_escapes() {
    assert_eq!(written(|out| write_string(out, "")), ">\"\"");
    assert_eq!(written(|out| write_string(out, "a\"b\\c")), ">\"a\\\"b\\\\c\"");
    assert_eq!(written(|out| write_string(out, "\u{8}\u{c}\n\r\t")), ">\"\\b\\f\\n\\r\\t\"");
    assert_eq!(written(|out| write_string(out, "\u{0}\u{b}\u{1f} ")), ">\"\\u0000\\u000b\\u001f \"");
    assert_eq!(written(|out| write_string(out, "\u{7f}\u{e9}/")), ">\"\u{7f}\u{e9}/\"");
    assert_eq!(written(|out| write_optional(out, &None)), ">null");
    assert_eq!(written(|out| write_optional(out, &Some("x".to_string()))), ">\"x\"");
}

#[test]
fn strings_are_read_back() {
    assert_eq!(parse_string(b"\"\"", 0), Some((String::new(), 2)));
    assert_eq!(parse_string(b"x\"a\\\"b\\\\c\\/\",", 1), Some(("a\"b\\c/".to_string(), 12)));
    assert_eq!(parse_string(b"\"\\b\\f\\n\\r\\t\"", 0), Some(("\u{8}\u{c}\n\r\t".to_string(), 12)));
    assert_eq!(parse_string(b"\"\\u0000\\u000B\\u007f\"", 0), Some(("\u{0}\u{b}\u{7f}".to_string(), 20)));
    assert_eq!(parse_string("\"\u{e9}\u{1f600}\"".as_bytes(), 0), Some(("\u{e9}\u{1f600}".to_string(), 8)));
    for bad in [
        &b""[..],
        b"a",
        b"\"",
        b"\"a",
        b"\"\\\"",
        b"\"\\x\"",
        b"\"\\u0080\"",
        b"\"\\u00e9\"",
        b"\"\\u0100\"",
        b"\"\\u00\"",
        b"\"\\u00g0\"",
        b"\"\n\"",
        b"\"\x1f\"",
        b"\"\xff\"",
        b"\"\xc3\"",
        b"\"\\",
    ] {
        assert_eq!(parse_string(bad, 0), None, "{:?}", bad);
    }
    assert_eq!(parse_string(b"\"\"", 3), None);
}

#[test]
fn missing_strings_are_read_as_none() {
    assert_eq!(parse_optional(b"null,", 0), Some((None, 4)));
    assert_eq!(parse_optional(b"\"null\"", 0), Some((Some("null".to_string()), 6)));
    assert_eq!(parse_optional(b"nul", 0), None);
    assert_eq!(parse_optional(b"Null", 0), None);
    assert_eq!(parse_optional(b"", 0), None);
}

#[test]
fn what_is_written_is_read_back() {
    for text in ["", "a", "\"\\/\u{0}\u{1f}\u{7f}\u{e9}\u{1f600}\n"] {
        let mut out = Vec::new();
        write_string(&mut out, text);
        let end = out.len();
        out.extend_from_slice(b"rest");
        assert_eq!(parse_string(&out, 0), Some((text.to_string(), end)));
    }
    for n in [0u128, 7, 10, 99, 100, u64::MAX as u128, u128::MAX] {
        let mut out = Vec::new();
        write_number(&mut out, n);
        let end = out.len();
        out.push(b',');
        assert_eq!(parse_number(&out, 0, u128::MAX), Some((n, end)));
    }
    for n in [i64::MIN, -10, -1, 0, 1, 10, i64::MAX] {
        let mut out = Vec::new();
        write_integer(&mut out, n);
        assert_eq!(parse_integer(&out, 0), Some((n, out.len())));
    }
}

#[test]
fn a_text_begins_with_its_front() {
    assert!(starts_with("/signin", "/signin"));
    assert!(starts_with("/signin/x", "/signin"));
    assert!(starts_with("/signin", ""));
    assert!(starts_with("", ""));
    assert!(!starts_with("/signi", "/signin"));
    assert!(!starts_with("x/signin", "/signin"));
    assert!(!starts_with("", "/"));
    assert!(starts_with("\u{e9}t\u{e9}", "\u{e9}"));
    assert!(!starts_with("e\u{301}", "\u{e9}"));
}
