//! Text and its bytes.
//!
//! A string is looked through as bytes and cut where a byte of the ASCII
//! range stands; what is proved here is that such a cut falls between two
//! characters, and what it means for the characters on both sides.

use vstd::prelude::*;
use vstd::string::*;
use vstd::utf8::*;

verus! {

/// The character that a byte of the ASCII range stands for.
pub open spec fn ascii(byte: u8) -> char {
    byte as char
}

/// A character of the ASCII range is written in UTF-8 as the byte it is.
pub proof fn lemma_encode_ascii(byte: u8)
    requires
        byte < 0x80,
    ensures
        encode_scalar(ascii(byte) as u32) == seq![byte],
        encode_utf8(seq![ascii(byte)]) == seq![byte],
{
    let scalar = byte as u32;
    assert(ascii(byte) as u32 == scalar);
    assert((scalar & 0x7F) as u8 == byte) by (bit_vector)
        requires
            scalar == byte as u32,
            byte < 0x80,
    ;
    assert(encode_scalar(scalar) =~= seq![byte]);
    let one = seq![ascii(byte)];
    assert(one.drop_first() =~= Seq::<char>::empty());
    assert(encode_utf8(one.drop_first()) =~= Seq::<u8>::empty()) by {
        reveal_with_fuel(encode_utf8, 1);
    }
    assert(encode_utf8(one) =~= encode_scalar(one[0] as u32) + encode_utf8(one.drop_first())) by {
        reveal_with_fuel(encode_utf8, 1);
    }
    assert(encode_utf8(one) =~= seq![byte]);
}

/// The bytes of two texts, one after the other, are the bytes of the one
/// text that they make.
pub proof fn lemma_encode_concat(a: Seq<char>, b: Seq<char>)
    ensures
        encode_utf8(a + b) == encode_utf8(a) + encode_utf8(b),
    decreases a.len(),
{
    if a.len() == 0 {
        assert(a + b =~= b);
        assert(encode_utf8(a) + encode_utf8(b) =~= encode_utf8(b));
    } else {
        assert((a + b).drop_first() =~= a.drop_first() + b);
        lemma_encode_concat(a.drop_first(), b);
        assert(encode_utf8(a + b) =~= encode_utf8(a) + encode_utf8(b));
    }
}

/// A text whose bytes lack a byte of the ASCII range lacks the character
/// that the byte stands for.
pub proof fn lemma_absent_byte(text: Seq<char>, byte: u8)
    requires
        byte < 0x80,
        !encode_utf8(text).contains(byte),
    ensures
        !text.contains(ascii(byte)),
    decreases text.len(),
{
    if text.len() > 0 {
        let bytes = encode_utf8(text);
        let head = encode_scalar(text[0] as u32);
        let tail = encode_utf8(text.drop_first());
        assert(bytes == head + tail);
        if text[0] == ascii(byte) {
            lemma_encode_ascii(byte);
            assert(bytes[0] == byte);
            assert(bytes.contains(byte));
        }
        assert(!tail.contains(byte)) by {
            if tail.contains(byte) {
                let i = choose|i: int| 0 <= i < tail.len() && tail[i] == byte;
                assert(bytes[head.len() + i] == byte);
            }
        }
        lemma_absent_byte(text.drop_first(), byte);
        if text.contains(ascii(byte)) {
            let i = choose|i: int| 0 <= i < text.len() && text[i] == ascii(byte);
            assert(text.drop_first()[i - 1] == ascii(byte));
        }
    }
}

/// Where the last `mark` stands in `text`, or -1 where there is none.
pub open spec fn last_index_of(text: Seq<char>, mark: char) -> int
    decreases text.len(),
{
    if text.len() == 0 {
        -1
    } else if text.last() == mark {
        text.len() - 1
    } else {
        last_index_of(text.drop_last(), mark)
    }
}

/// A place with a `mark` on it and none behind it is where the last `mark`
/// stands; -1 is, where there is no `mark` at all.
pub proof fn lemma_last_index_is(text: Seq<char>, mark: char, at: int)
    requires
        -1 <= at < text.len(),
        at >= 0 ==> text[at] == mark,
        forall|j: int| at < j < text.len() ==> text[j] != mark,
    ensures
        last_index_of(text, mark) == at,
    decreases text.len(),
{
    if text.len() > 0 && text.last() != mark {
        let front = text.drop_last();
        assert forall|j: int| at < j < front.len() implies front[j] != mark by {
            assert(front[j] == text[j]);
        }
        if at >= 0 {
            assert(front[at] == text[at]);
        }
        lemma_last_index_is(front, mark, at);
    }
}

/// A text that is cut in two by a `mark`, with none in the second part, has
/// its last `mark` where the first part ends.
pub proof fn lemma_last_index_of_cut(left: Seq<char>, mark: char, right: Seq<char>)
    requires
        !right.contains(mark),
    ensures
        last_index_of(left + seq![mark] + right, mark) == left.len(),
{
    let text = left + seq![mark] + right;
    assert forall|j: int| left.len() < j < text.len() implies text[j] != mark by {
        assert(text[j] == right[j - left.len() - 1]);
        assert(right.contains(right[j - left.len() - 1]));
    }
    lemma_last_index_is(text, mark, left.len() as int);
}

/// Cuts `text` at the last byte `separator`, which is of the ASCII range:
/// what stands before it and what stands after it. A text without that byte
/// is not cut.
pub fn rsplit_once(text: &str, separator: u8) -> (res: Option<(&str, &str)>)
    requires
        separator < 0x80,
    ensures
        match res {
            Some((left, right)) => {
                &&& text@ == left@ + seq![ascii(separator)] + right@
                &&& !right@.contains(ascii(separator))
                &&& last_index_of(text@, ascii(separator)) == left@.len()
                &&& text.spec_bytes() == left.spec_bytes() + seq![separator] + right.spec_bytes()
                &&& !right.spec_bytes().contains(separator)
            },
            None => {
                &&& !text@.contains(ascii(separator))
                &&& last_index_of(text@, ascii(separator)) == -1
                &&& !text.spec_bytes().contains(separator)
            },
        },
{
    let bytes = text.as_bytes();
    let mut i: usize = bytes.len();
    while i > 0
        invariant
            separator < 0x80,
            bytes@ == text.spec_bytes(),
            i <= bytes@.len(),
            forall|j: int| i <= j < bytes@.len() ==> bytes@[j] != separator,
        decreases i,
    {
        if bytes[i - 1] == separator {
            let ghost at = (i - 1) as int;
            let ghost rest_bytes = bytes@.subrange(at, bytes@.len() as int);
            proof {
                encode_utf8_valid_utf8(text@);
                is_char_boundary_iff_not_is_continuation_byte(bytes@, at);
                valid_utf8_split(bytes@, at);
                assert(rest_bytes[0] == separator);
                assert(is_char_boundary(rest_bytes, 1)) by {
                    reveal_with_fuel(is_char_boundary, 2);
                }
            }
            let (left, rest) = text.split_at(i - 1);
            let (mark, right) = rest.split_at(1);
            proof {
                let tail = bytes@.subrange(at + 1, bytes@.len() as int);
                assert(right.spec_bytes() == tail);
                assert(mark.spec_bytes() == seq![separator]);
                assert(bytes@ =~= left.spec_bytes() + seq![separator] + tail);
                assert(!tail.contains(separator));
                lemma_absent_byte(right@, separator);
                lemma_encode_ascii(separator);
                lemma_encode_concat(left@, seq![ascii(separator)]);
                lemma_encode_concat(left@ + seq![ascii(separator)], right@);
                let joined = left@ + seq![ascii(separator)] + right@;
                assert(encode_utf8(joined) == bytes@);
                encode_utf8_decode_utf8(joined);
                encode_utf8_decode_utf8(text@);
                lemma_last_index_of_cut(left@, ascii(separator), right@);
            }
            return Some((left, right));
        }
        i -= 1;
    }
    proof {
        assert(!bytes@.contains(separator));
        lemma_absent_byte(text@, separator);
        assert forall|j: int| -1 < j < text@.len() implies text@[j] != ascii(separator) by {
            assert(text@.contains(text@[j]));
        }
        lemma_last_index_is(text@, ascii(separator), -1);
    }
    None
}

/// Whether the bytes `prefix` stand at the front of the bytes `s`.
pub open spec fn bytes_begin_with(s: Seq<u8>, prefix: Seq<u8>) -> bool {
    prefix.len() <= s.len() && s.take(prefix.len() as int) == prefix
}

/// A text begins with a text of the ASCII range exactly if its bytes begin
/// with the bytes of that text.
pub proof fn lemma_prefix_by_bytes(text: Seq<char>, prefix: Seq<char>)
    requires
        is_ascii_chars(prefix),
    ensures
        prefix.is_prefix_of(text) <==> bytes_begin_with(encode_utf8(text), encode_utf8(prefix)),
    decreases prefix.len(),
{
    let bytes = encode_utf8(text);
    let front = encode_utf8(prefix);
    if prefix.len() == 0 {
        assert(prefix =~= text.subrange(0, 0));
        assert(bytes.take(0) =~= front);
    } else {
        let mark = prefix[0];
        let byte = mark as u8;
        assert(mark == ascii(byte) && byte < 0x80) by {
            assert('\0' <= mark <= '\u{7f}');
        }
        lemma_encode_ascii(byte);
        let less = prefix.drop_first();
        assert(is_ascii_chars(less)) by {
            assert forall|i: int| 0 <= i < less.len() implies '\0' <= #[trigger] less[i]
                <= '\u{7f}' by {
                assert(less[i] == prefix[i + 1]);
            }
        }
        assert(front == seq![byte] + encode_utf8(less));
        if text.len() == 0 {
            assert(bytes.len() == 0);
        } else {
            let rest = text.drop_first();
            let scalar = text[0] as u32;
            let head = encode_scalar(scalar);
            assert(bytes == head + encode_utf8(rest));
            lemma_prefix_by_bytes(rest, less);
            char_is_scalar(text[0]);
            if text[0] == mark {
                assert(head == seq![byte]);
                if less.is_prefix_of(rest) {
                    assert(prefix =~= text.subrange(0, prefix.len() as int)) by {
                        assert forall|i: int| 0 <= i < prefix.len() implies prefix[i] == text[i] by {
                            if i > 0 {
                                assert(less[i - 1] == rest.subrange(0, less.len() as int)[i - 1]);
                            }
                        }
                    }
                    assert(bytes.take(front.len() as int) =~= front) by {
                        assert(encode_utf8(rest).take(encode_utf8(less).len() as int) == encode_utf8(
                            less,
                        ));
                        assert forall|i: int| 0 <= i < front.len() implies bytes[i] == front[i] by {
                            if i > 0 {
                                assert(encode_utf8(rest).take(encode_utf8(less).len() as int)[i - 1]
                                    == encode_utf8(rest)[i - 1]);
                            }
                        }
                    }
                }
                if prefix.is_prefix_of(text) {
                    assert(less =~= rest.subrange(0, less.len() as int)) by {
                        assert forall|i: int| 0 <= i < less.len() implies less[i] == rest[i] by {
                            assert(prefix[i + 1] == text.subrange(0, prefix.len() as int)[i + 1]);
                        }
                    }
                }
                if bytes_begin_with(bytes, front) {
                    assert(encode_utf8(rest).take(encode_utf8(less).len() as int) =~= encode_utf8(
                        less,
                    )) by {
                        assert forall|i: int| 0 <= i < encode_utf8(less).len() implies encode_utf8(
                            rest,
                        )[i] == encode_utf8(less)[i] by {
                            assert(bytes.take(front.len() as int)[i + 1] == bytes[i + 1]);
                            assert(front[i + 1] == encode_utf8(less)[i]);
                        }
                    }
                }
            } else {
                assert(!prefix.is_prefix_of(text)) by {
                    if prefix.is_prefix_of(text) {
                        assert(text.subrange(0, prefix.len() as int)[0] == text[0]);
                    }
                }
                assert(scalar != byte as u32) by {
                    char_u32_cast(text[0], scalar);
                }
                assert(head[0] != byte) by {
                    assert(has_width_1_encoding(scalar) ==> (scalar & 0x7F) as u8 != byte)
                        by (bit_vector)
                        requires
                            scalar != byte as u32,
                            byte < 0x80,
                    ;
                    assert(0xC0 | ((scalar >> 6) & 0x1F) as u8 >= 0x80) by (bit_vector);
                    assert(0xE0 | ((scalar >> 12) & 0x0F) as u8 >= 0x80) by (bit_vector);
                    assert(0xF0 | ((scalar >> 18) & 0x7) as u8 >= 0x80) by (bit_vector);
                }
                assert(!bytes_begin_with(bytes, front)) by {
                    if bytes_begin_with(bytes, front) {
                        assert(bytes.take(front.len() as int)[0] == bytes[0]);
                        assert(bytes[0] == head[0]);
                    }
                }
            }
        }
    }
}

/// Whether `text` begins with `prefix`, told by their bytes. For a prefix of
/// the ASCII range that is whether the characters of `text` begin with those
/// of `prefix`.
pub fn starts_with(text: &str, prefix: &str) -> (b: bool)
    ensures
        b == bytes_begin_with(text.spec_bytes(), prefix.spec_bytes()),
        is_ascii_chars(prefix@) ==> b == prefix@.is_prefix_of(text@),
{
    proof {
        if is_ascii_chars(prefix@) {
            lemma_prefix_by_bytes(text@, prefix@);
        }
    }
    let bytes = text.as_bytes();
    let front = prefix.as_bytes();
    if front.len() > bytes.len() {
        return false;
    }
    let mut i: usize = 0;
    while i < front.len()
        invariant
            i <= front@.len() <= bytes@.len(),
            bytes@ == text.spec_bytes(),
            front@ == prefix.spec_bytes(),
            is_ascii_chars(prefix@) ==> (prefix@.is_prefix_of(text@) <==> bytes_begin_with(
                bytes@,
                front@,
            )),
            forall|j: int| 0 <= j < i ==> bytes@[j] == front@[j],
        decreases front@.len() - i,
    {
        if bytes[i] != front[i] {
            assert(bytes@.take(front@.len() as int)[i as int] == bytes@[i as int]);
            return false;
        }
        i += 1;
    }
    assert(bytes@.take(front@.len() as int) =~= front@);
    true
}

} // verus!
