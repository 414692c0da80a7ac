//! Percent-encoding of one URL path segment, and its inverse.

use crate::text::push_char;
use vstd::prelude::*;
use vstd::string::StringSliceAdditionalSpecFns;
use vstd::utf8::{decode_utf8, encode_utf8, encode_utf8_decode_utf8, is_ascii_chars, is_ascii_chars_encode_utf8};

verus! {

/// Bytes that stand for themselves in a path segment: ASCII letters and
/// digits, and `*`, `-`, `.`, `_`.
pub open spec fn is_plain(b: u8) -> bool {
    (0x30 <= b <= 0x39) || (0x41 <= b <= 0x5a) || (0x61 <= b <= 0x7a) || b == 0x2a || b == 0x2d
        || b == 0x2e || b == 0x5f
}

/// The upper-case hexadecimal digit of a value below 16.
pub open spec fn hex_digit(n: u8) -> u8 {
    if n < 10 {
        (0x30 + n) as u8
    } else {
        (0x37 + n) as u8
    }
}

/// Whether a byte is a hexadecimal digit, in either case.
pub open spec fn is_hex(b: u8) -> bool {
    (0x30 <= b <= 0x39) || (0x41 <= b <= 0x46) || (0x61 <= b <= 0x66)
}

/// The value of a hexadecimal digit.
pub open spec fn hex_value(b: u8) -> int {
    if 0x30 <= b <= 0x39 {
        b - 0x30
    } else if 0x41 <= b <= 0x46 {
        b - 0x37
    } else {
        b - 0x57
    }
}

/// What one byte becomes: itself, or `%` and its two hexadecimal digits.
pub open spec fn escaped_byte(b: u8) -> Seq<u8> {
    if is_plain(b) {
        seq![b]
    } else {
        seq![0x25u8, hex_digit(b / 16), hex_digit(b % 16)]
    }
}

/// The percent-encoding of a byte string.
pub open spec fn escaped(bytes: Seq<u8>) -> Seq<u8>
    decreases bytes.len(),
{
    if bytes.len() == 0 {
        Seq::empty()
    } else {
        escaped_byte(bytes[0]) + escaped(bytes.skip(1))
    }
}

/// Whether an escape sequence (`%` and two hexadecimal digits) starts the text.
pub open spec fn starts_with_escape(text: Seq<u8>) -> bool {
    text.len() >= 3 && text[0] == 0x25 && is_hex(text[1]) && is_hex(text[2])
}

/// The bytes that a percent-encoded text stands for. A `%` that no two
/// hexadecimal digits follow stands for itself.
pub open spec fn unescaped(text: Seq<u8>) -> Seq<u8>
    decreases text.len(),
{
    if text.len() == 0 {
        Seq::empty()
    } else if starts_with_escape(text) {
        seq![(16 * hex_value(text[1]) + hex_value(text[2])) as u8] + unescaped(text.skip(3))
    } else {
        seq![text[0]] + unescaped(text.skip(1))
    }
}

/// The text whose characters are the given ASCII bytes.
pub open spec fn ascii_text(bytes: Seq<u8>) -> Seq<char> {
    Seq::new(bytes.len(), |i: int| bytes[i] as char)
}

/// The percent-encoding of a text: that of its UTF-8 form, as text.
pub open spec fn percent_encoded(text: Seq<char>) -> Seq<char> {
    ascii_text(escaped(encode_utf8(text)))
}

/// The bytes that a percent-encoded text stands for.
pub open spec fn percent_decoded(text: Seq<char>) -> Seq<u8> {
    unescaped(encode_utf8(text))
}

/// Bytes that an encoded segment is made of: the plain ones and `%`.
pub open spec fn is_segment_byte(b: u8) -> bool {
    is_plain(b) || b == 0x25
}

/// Characters that an encoded segment is made of.
pub open spec fn is_segment_char(c: char) -> bool {
    ('0' <= c <= '9') || ('A' <= c <= 'Z') || ('a' <= c <= 'z') || c == '*' || c == '-' || c == '.'
        || c == '_' || c == '%'
}

/// Whether every byte of the text may stand in an encoded segment.
pub open spec fn is_segment(text: Seq<u8>) -> bool {
    forall|i: int| 0 <= i < text.len() ==> is_segment_byte(#[trigger] text[i])
}

/// Encoding a concatenation encodes its parts.
pub proof fn lemma_escaped_concat(a: Seq<u8>, b: Seq<u8>)
    ensures
        escaped(a + b) == escaped(a) + escaped(b),
    decreases a.len(),
{
    if a.len() == 0 {
        assert(a + b =~= b);
        assert(escaped(a) + escaped(b) =~= escaped(b));
    } else {
        lemma_escaped_concat(a.skip(1), b);
        assert((a + b).skip(1) =~= a.skip(1) + b);
        assert((a + b)[0] == a[0]);
        assert(escaped_byte(a[0]) + (escaped(a.skip(1)) + escaped(b)) =~= (escaped_byte(a[0])
            + escaped(a.skip(1))) + escaped(b));
    }
}

/// Encoding one more byte appends what that byte becomes.
pub proof fn lemma_escaped_push(a: Seq<u8>, b: u8)
    ensures
        escaped(a.push(b)) == escaped(a) + escaped_byte(b),
{
    lemma_escaped_concat(a, seq![b]);
    assert(a.push(b) =~= a + seq![b]);
    let one = seq![b];
    assert(one.skip(1) =~= Seq::<u8>::empty());
    assert(escaped(one.skip(1)) =~= Seq::<u8>::empty());
    assert(escaped(one) == escaped_byte(one[0]) + escaped(one.skip(1)));
    assert(escaped(one) =~= escaped_byte(b));
}

/// The two digits of an escape give the byte back.
pub proof fn lemma_hex_digits(b: u8)
    ensures
        is_hex(hex_digit(b / 16)),
        is_hex(hex_digit(b % 16)),
        16 * hex_value(hex_digit(b / 16)) + hex_value(hex_digit(b % 16)) == b,
        is_plain(hex_digit(b / 16)),
        is_plain(hex_digit(b % 16)),
{
}

/// Decoding undoes the encoding of a leading byte.
pub proof fn lemma_unescaped_block(b: u8, rest: Seq<u8>)
    ensures
        unescaped(escaped_byte(b) + rest) == seq![b] + unescaped(rest),
{
    let text = escaped_byte(b) + rest;
    lemma_hex_digits(b);
    if is_plain(b) {
        assert(text[0] == b);
        assert(!starts_with_escape(text));
        assert(text.skip(1) =~= rest);
    } else {
        assert(text[0] == 0x25u8);
        assert(text[1] == hex_digit(b / 16));
        assert(text[2] == hex_digit(b % 16));
        assert(starts_with_escape(text));
        assert(text.skip(3) =~= rest);
    }
}

/// Decoding an encoded byte string gives the byte string back.
pub proof fn lemma_unescaped_escaped(bytes: Seq<u8>)
    ensures
        unescaped(escaped(bytes)) == bytes,
    decreases bytes.len(),
{
    if bytes.len() == 0 {
    } else {
        lemma_unescaped_escaped(bytes.skip(1));
        lemma_unescaped_block(bytes[0], escaped(bytes.skip(1)));
        assert(seq![bytes[0]] + bytes.skip(1) =~= bytes);
    }
}

/// An encoded byte string holds only plain bytes and `%`.
pub proof fn lemma_escaped_is_segment(bytes: Seq<u8>)
    ensures
        is_segment(escaped(bytes)),
    decreases bytes.len(),
{
    if bytes.len() == 0 {
    } else {
        lemma_escaped_is_segment(bytes.skip(1));
        lemma_hex_digits(bytes[0]);
        let head = escaped_byte(bytes[0]);
        let tail = escaped(bytes.skip(1));
        assert forall|i: int| 0 <= i < (head + tail).len() implies is_segment_byte(
            #[trigger] (head + tail)[i],
        ) by {
            if i < head.len() {
                assert((head + tail)[i] == head[i]);
            } else {
                assert((head + tail)[i] == tail[i - head.len()]);
            }
        }
    }
}

/// The text of a concatenation is the concatenation of the texts.
pub proof fn lemma_ascii_text_concat(a: Seq<u8>, b: Seq<u8>)
    ensures
        ascii_text(a + b) == ascii_text(a) + ascii_text(b),
{
    assert(ascii_text(a + b) =~= ascii_text(a) + ascii_text(b));
}

/// The UTF-8 form of a text made of segment bytes is those bytes.
pub proof fn lemma_segment_text_bytes(bytes: Seq<u8>)
    requires
        is_segment(bytes),
    ensures
        is_ascii_chars(ascii_text(bytes)),
        encode_utf8(ascii_text(bytes)) == bytes,
{
    let text = ascii_text(bytes);
    assert forall|i: int| 0 <= i < text.len() implies '\0' <= #[trigger] text[i] <= '\u{7f}' by {
        assert(is_segment_byte(bytes[i]));
    }
    is_ascii_chars_encode_utf8(text);
    assert forall|i: int| 0 <= i < bytes.len() implies encode_utf8(text)[i] == bytes[i] by {
        assert(is_segment_byte(bytes[i]));
        assert(text[i] as u8 == encode_utf8(text)[i]);
    }
    assert(encode_utf8(text) =~= bytes);
}

/// Round trip: decoding the percent-encoding of a text gives the UTF-8 form
/// of that text, and so the text itself.
pub proof fn percent_round_trip(text: Seq<char>)
    ensures
        percent_decoded(percent_encoded(text)) == encode_utf8(text),
        decode_utf8(percent_decoded(percent_encoded(text))) == text,
{
    let bytes = encode_utf8(text);
    lemma_escaped_is_segment(bytes);
    lemma_segment_text_bytes(escaped(bytes));
    lemma_unescaped_escaped(bytes);
    encode_utf8_decode_utf8(text);
}

/// A percent-encoded text holds ASCII letters, digits, `*`, `-`, `.`, `_` and
/// `%` only: in particular no `/`, `?`, `#` or `@`.
pub proof fn percent_encoded_is_safe(text: Seq<char>)
    ensures
        forall|i: int|
            0 <= i < percent_encoded(text).len() ==> is_segment_char(
                #[trigger] percent_encoded(text)[i],
            ),
{
    let bytes = escaped(encode_utf8(text));
    lemma_escaped_is_segment(encode_utf8(text));
    assert forall|i: int| 0 <= i < percent_encoded(text).len() implies is_segment_char(
        #[trigger] percent_encoded(text)[i],
    ) by {
        assert(is_segment_byte(bytes[i]));
    }
}

/// Whether a byte stands for itself in a path segment.
pub fn is_plain_byte(b: u8) -> (plain: bool)
    ensures
        plain == is_plain(b),
{
    (0x30 <= b && b <= 0x39) || (0x41 <= b && b <= 0x5a) || (0x61 <= b && b <= 0x7a) || b == 0x2a
        || b == 0x2d || b == 0x2e || b == 0x5f
}

/// The upper-case hexadecimal digit of a value below 16.
fn hex_digit_of(n: u8) -> (digit: u8)
    requires
        n < 16,
    ensures
        digit == hex_digit(n),
{
    if n < 10 {
        0x30 + n
    } else {
        0x37 + n
    }
}

/// Percent-encodes a text for use as one URL path segment: the bytes of its
/// UTF-8 form that are ASCII letters, digits, `*`, `-`, `.` or `_` stay, and
/// every other byte becomes `%` and two upper-case hexadecimal digits.
pub fn percent_encode(input: &str) -> (out: String)
    ensures
        out@ == percent_encoded(input@),
{
    let bytes = input.as_bytes();
    let mut out = String::new();
    let mut i: usize = 0;
    proof {
        assert(bytes@.take(0) =~= Seq::<u8>::empty());
        assert(out@ =~= ascii_text(escaped(bytes@.take(0))));
    }
    while i < bytes.len()
        invariant
            i <= bytes.len(),
            bytes@ == encode_utf8(input@),
            out@ == ascii_text(escaped(bytes@.take(i as int))),
        decreases bytes.len() - i,
    {
        let b: u8 = bytes[i];
        let ghost before = out@;
        let ghost done = bytes@.take(i as int);
        if is_plain_byte(b) {
            push_char(&mut out, b as char);
            proof {
                assert(out@ =~= before + ascii_text(escaped_byte(b)));
            }
        } else {
            let high: u8 = hex_digit_of(b / 16);
            let low: u8 = hex_digit_of(b % 16);
            push_char(&mut out, '%');
            push_char(&mut out, high as char);
            push_char(&mut out, low as char);
            proof {
                assert(0x25u8 as char == '%');
                assert(out@ =~= before + ascii_text(escaped_byte(b)));
            }
        }
        proof {
            lemma_escaped_push(done, b);
            lemma_ascii_text_concat(escaped(done), escaped_byte(b));
            assert(bytes@.take(i + 1) =~= done.push(b));
        }
        i += 1;
    }
    proof {
        assert(bytes@.take(i as int) =~= bytes@);
    }
    out
}

/// Whether a byte is a hexadecimal digit, in either case.
pub fn is_hex_byte(b: u8) -> (hex: bool)
    ensures
        hex == is_hex(b),
{
    (0x30 <= b && b <= 0x39) || (0x41 <= b && b <= 0x46) || (0x61 <= b && b <= 0x66)
}

/// The value of a hexadecimal digit.
fn hex_value_of(b: u8) -> (value: u8)
    requires
        is_hex(b),
    ensures
        value == hex_value(b),
        value < 16,
{
    if 0x30 <= b && b <= 0x39 {
        b - 0x30
    } else if 0x41 <= b && b <= 0x46 {
        b - 0x37
    } else {
        b - 0x57
    }
}

/// Decodes a percent-encoded text into the bytes it stands for. A `%` that
/// no two hexadecimal digits follow is kept as it is.
pub fn percent_decode(input: &str) -> (out: Vec<u8>)
    ensures
        out@ == percent_decoded(input@),
{
    let bytes = input.as_bytes();
    let mut out: Vec<u8> = Vec::new();
    let mut i: usize = 0;
    proof {
        assert(bytes@.skip(0) =~= bytes@);
        assert(out@ + unescaped(bytes@.skip(0)) =~= unescaped(bytes@));
    }
    while i < bytes.len()
        invariant
            i <= bytes.len(),
            bytes@ == encode_utf8(input@),
            out@ + unescaped(bytes@.skip(i as int)) == unescaped(bytes@),
        decreases bytes.len() - i,
    {
        let ghost rest = bytes@.skip(i as int);
        let ghost before = out@;
        let b: u8 = bytes[i];
        if b == 0x25 && bytes.len() - i >= 3 && is_hex_byte(bytes[i + 1]) && is_hex_byte(
            bytes[i + 2],
        ) {
            let high: u8 = hex_value_of(bytes[i + 1]);
            let low: u8 = hex_value_of(bytes[i + 2]);
            out.push(16 * high + low);
            proof {
                assert(rest[0] == b && rest[1] == bytes@[i + 1] && rest[2] == bytes@[i + 2]);
                assert(starts_with_escape(rest));
                assert(rest.skip(3) =~= bytes@.skip(i + 3));
                assert(out@ + unescaped(bytes@.skip(i + 3)) =~= before + unescaped(rest));
            }
            i += 3;
        } else {
            out.push(b);
            proof {
                assert(rest[0] == b);
                if rest.len() >= 3 {
                    assert(rest[1] == bytes@[i + 1] && rest[2] == bytes@[i + 2]);
                }
                assert(!starts_with_escape(rest));
                assert(rest.skip(1) =~= bytes@.skip(i + 1));
                assert(out@ + unescaped(bytes@.skip(i + 1)) =~= before + unescaped(rest));
            }
            i += 1;
        }
    }
    proof {
        assert(bytes@.skip(i as int) =~= Seq::<u8>::empty());
        assert(out@ + unescaped(bytes@.skip(i as int)) =~= out@);
    }
    out
}

} // verus!
