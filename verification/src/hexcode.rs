//! Hexadecimal text, as signatures and unsigned commits travel in it.

use crate::text::is_prefix;
use vstd::prelude::*;

verus! {

/// The value of the hexadecimal digit with ASCII code `c`, in either case.
pub open spec fn hex_value(c: u8) -> Option<u8> {
    if 0x30 <= c && c <= 0x39 {
        Some((c - 0x30) as u8)
    } else if 0x41 <= c && c <= 0x46 {
        Some((c - 0x41 + 10) as u8)
    } else if 0x61 <= c && c <= 0x66 {
        Some((c - 0x61 + 10) as u8)
    } else {
        None
    }
}

/// `text` is an even number of hexadecimal digits.
pub open spec fn is_hex_text(text: Seq<u8>) -> bool {
    text.len() % 2 == 0 && forall|i: int| 0 <= i < text.len() ==> hex_value(#[trigger] text[i]) is Some
}

/// The bytes that the hexadecimal digits `text` write, two digits a byte,
/// the high half first.
pub open spec fn hex_decoded(text: Seq<u8>) -> Seq<u8> {
    Seq::new(
        text.len() / 2,
        |i: int| (hex_value(text[2 * i]).unwrap() * 16 + hex_value(text[2 * i + 1]).unwrap()) as u8,
    )
}

/// The lower-case hexadecimal digit of value `n`.
pub open spec fn hex_digit(n: int) -> char {
    if n < 10 {
        ('0' as u32 + n as u32) as char
    } else {
        ('a' as u32 + (n - 10) as u32) as char
    }
}

/// `data` in lower-case hexadecimal, two digits a byte, the high half first.
pub open spec fn hex_encoded(data: Seq<u8>) -> Seq<char> {
    Seq::new(
        2 * data.len(),
        |i: int|
            if i % 2 == 0 {
                hex_digit(data[i / 2] as int / 16)
            } else {
                hex_digit(data[i / 2] as int % 16)
            },
    )
}

/// `s` without a leading `0x` or `0X`.
pub open spec fn without_hex_prefix(s: Seq<char>) -> Seq<char> {
    if is_prefix(seq!['0', 'x'], s) || is_prefix(seq!['0', 'X'], s) {
        s.skip(2)
    } else {
        s
    }
}

/// `hex::decode`: the bytes written by an even number of hexadecimal
/// digits of either case; any other input is refused.
#[verifier::external_body]
pub(crate) fn decode_hex(text: &[u8]) -> (out: Option<Vec<u8>>)
    ensures
        out is Some <==> is_hex_text(text@),
        out matches Some(bytes) ==> bytes@ == hex_decoded(text@),
{
    hex::decode(text).ok()
}

/// `hex::encode`: two lower-case hexadecimal digits for each byte.
#[verifier::external_body]
pub(crate) fn encode_hex(data: &[u8]) -> (out: String)
    ensures
        out@ == hex_encoded(data@),
{
    hex::encode(data)
}

/// `s` without a leading `0x` or `0X`.
pub fn strip_hex_prefix(s: &str) -> (out: &str)
    ensures
        out@ == without_hex_prefix(s@),
{
    let n: usize = s.unicode_len();
    if n >= 2 && s.get_char(0) == '0' && (s.get_char(1) == 'x' || s.get_char(1) == 'X') {
        assert(s@.subrange(0, 2) =~= seq!['0', s@[1]]);
        assert(s@.subrange(2, n as int) =~= s@.skip(2));
        s.substring_char(2, n)
    } else {
        proof {
            if n >= 2 {
                assert(s@.subrange(0, 2)[0] == s@[0]);
                assert(s@.subrange(0, 2)[1] == s@[1]);
                assert(seq!['0', 'x'][0] == '0' && seq!['0', 'x'][1] == 'x');
                assert(seq!['0', 'X'][0] == '0' && seq!['0', 'X'][1] == 'X');
            }
        }
        s
    }
}

/// The bytes that `text` writes in hexadecimal, if it is an even number of
/// hexadecimal digits.
pub fn hex_to_bytes(text: &str) -> (out: Option<Vec<u8>>)
    ensures
        out is Some <==> is_hex_text(vstd::utf8::encode_utf8(text@)),
        out matches Some(bytes) ==> bytes@ == hex_decoded(vstd::utf8::encode_utf8(text@)),
{
    decode_hex(text.as_bytes())
}

/// `data` in lower-case hexadecimal.
pub fn bytes_to_hex(data: &Vec<u8>) -> (out: String)
    ensures
        out@ == hex_encoded(data@),
{
    encode_hex(data.as_slice())
}

/// The byte that writes a hexadecimal digit has the digit's value.
proof fn lemma_hex_digit_value(n: int)
    requires
        0 <= n < 16,
    ensures
        '\0' <= hex_digit(n) <= '\u{7f}',
        hex_value(hex_digit(n) as u8) == Some(n as u8),
        hex_digit(n) != 'x',
        hex_digit(n) != 'X',
{
}

/// Writing bytes in hexadecimal and reading the text again gives the bytes
/// back; the text is never mistaken for one with a `0x` prefix.
pub proof fn lemma_hex_round_trip(data: Seq<u8>)
    ensures
        is_hex_text(vstd::utf8::encode_utf8(hex_encoded(data))),
        hex_decoded(vstd::utf8::encode_utf8(hex_encoded(data))) == data,
        without_hex_prefix(hex_encoded(data)) == hex_encoded(data),
{
    let text = hex_encoded(data);
    assert forall|i: int| 0 <= i < text.len() implies '\0' <= #[trigger] text[i] <= '\u{7f}' by {
        let b = data[i / 2] as int;
        lemma_hex_digit_value(b / 16);
        lemma_hex_digit_value(b % 16);
    }
    assert(vstd::utf8::is_ascii_chars(text));
    vstd::utf8::is_ascii_chars_encode_utf8(text);
    let bytes = vstd::utf8::encode_utf8(text);
    assert(bytes.len() == 2 * data.len());
    assert forall|i: int| 0 <= i < bytes.len() implies hex_value(#[trigger] bytes[i]) is Some by {
        let b = data[i / 2] as int;
        lemma_hex_digit_value(b / 16);
        lemma_hex_digit_value(b % 16);
        assert(bytes[i] == text[i] as u8);
    }
    assert forall|i: int| 0 <= i < data.len() implies #[trigger] hex_decoded(bytes)[i] == data[i] by {
        let b = data[i] as int;
        lemma_hex_digit_value(b / 16);
        lemma_hex_digit_value(b % 16);
        assert(bytes[2 * i] == text[2 * i] as u8);
        assert(bytes[2 * i + 1] == text[2 * i + 1] as u8);
        assert(text[2 * i] == hex_digit(b / 16));
        assert(text[2 * i + 1] == hex_digit(b % 16));
    }
    assert(hex_decoded(bytes) =~= data);
    if text.len() >= 2 {
        let b = data[0] as int;
        lemma_hex_digit_value(b % 16);
        assert(text[1] == hex_digit(b % 16));
        assert(text.subrange(0, 2)[1] == text[1]);
        assert(seq!['0', 'x'][1] == 'x');
        assert(seq!['0', 'X'][1] == 'X');
    }
}

} // verus!
