//! Hexadecimal text: which strings are well-formed hex, the bytes they stand
//! for, and the text that stands for given bytes.

use vstd::prelude::*;
use vstd::utf8::{
    char_is_scalar, char_u32_cast, encode_scalar, encode_utf8, is_ascii_chars,
    is_ascii_chars_encode_utf8,
};

verus! {

/// Whether `b` is an ASCII hexadecimal digit, in either case.
pub open spec fn is_hex_digit(b: u8) -> bool {
    ||| 0x30 <= b <= 0x39
    ||| 0x41 <= b <= 0x46
    ||| 0x61 <= b <= 0x66
}

/// The number, below sixteen, that the hexadecimal digit `b` stands for.
pub open spec fn hex_digit_value(b: u8) -> int {
    if 0x30 <= b <= 0x39 {
        b - 0x30
    } else if 0x41 <= b <= 0x46 {
        b - 0x41 + 10
    } else {
        b - 0x61 + 10
    }
}

/// Whether `text` is well-formed hex: an even number of hexadecimal digits.
pub open spec fn is_hex_text(text: Seq<u8>) -> bool {
    &&& text.len() % 2 == 0
    &&& forall|i: int| 0 <= i < text.len() ==> is_hex_digit(#[trigger] text[i])
}

/// The bytes that well-formed hex `text` stands for: each pair of digits is
/// one byte, the first digit of the pair being the high half.
pub open spec fn hex_to_bytes(text: Seq<u8>) -> Seq<u8> {
    Seq::new(
        text.len() / 2,
        |i: int| (hex_digit_value(text[2 * i]) * 16 + hex_digit_value(text[2 * i + 1])) as u8,
    )
}

/// The lower-case hexadecimal digit for a number below sixteen.
pub open spec fn hex_digit_char(n: int) -> char {
    if n < 10 {
        ((0x30 + n) as u8) as char
    } else {
        ((0x61 + n - 10) as u8) as char
    }
}

/// The lower-case hex text for `bytes`: two digits per byte, high half first.
pub open spec fn bytes_to_hex(bytes: Seq<u8>) -> Seq<char> {
    Seq::new(
        2 * bytes.len(),
        |i: int|
            hex_digit_char(
                if i % 2 == 0 {
                    bytes[i / 2] as int / 16
                } else {
                    bytes[i / 2] as int % 16
                },
            ),
    )
}

/// Whether `c` is a hexadecimal digit, in either case.
pub open spec fn is_hex_char(c: char) -> bool {
    ||| '0' <= c <= '9'
    ||| 'A' <= c <= 'F'
    ||| 'a' <= c <= 'f'
}

/// Whether `text` is a hex string: an even number of hexadecimal digits.
pub open spec fn is_hex_string(text: Seq<char>) -> bool {
    &&& text.len() % 2 == 0
    &&& forall|i: int| 0 <= i < text.len() ==> is_hex_char(#[trigger] text[i])
}

/// The characters of `text` as bytes; for a hex string, its UTF-8 encoding.
pub open spec fn char_codes(text: Seq<char>) -> Seq<u8> {
    Seq::new(text.len(), |i: int| text[i] as u8)
}

/// The bytes that the hex string `text` stands for.
pub open spec fn hex_string_bytes(text: Seq<char>) -> Seq<u8> {
    hex_to_bytes(char_codes(text))
}

/// Text all of whose bytes are below 128 is made of characters below 128.
proof fn lemma_low_bytes_are_ascii(text: Seq<char>)
    requires
        forall|i: int|
            0 <= i < encode_utf8(text).len() ==> (#[trigger] encode_utf8(text)[i]) < 0x80,
    ensures
        is_ascii_chars(text),
    decreases text.len(),
{
    if text.len() > 0 {
        let c = text[0] as u32;
        char_is_scalar(text[0]);
        char_u32_cast(text[0], c);
        let head = encode_scalar(c);
        let tail = encode_utf8(text.drop_first());
        assert(encode_utf8(text)[0] == head[0]);
        if c > 0x7f {
            // The encoding of a character above 0x7f starts with a byte
            // that has its high bit set.
            assert((0xC0u8 | (((c >> 6) & 0x1F) as u8)) >= 0x80) by (bit_vector);
            assert((0xE0u8 | (((c >> 12) & 0x0F) as u8)) >= 0x80) by (bit_vector);
            assert((0xF0u8 | (((c >> 18) & 0x7) as u8)) >= 0x80) by (bit_vector);
            assert(head[0] >= 0x80);
        }
        // So the first character is encoded in one byte, and the rest of
        // the bytes encode the rest of the text.
        assert forall|i: int| 0 <= i < tail.len() implies (#[trigger] tail[i]) < 0x80 by {
            assert(encode_utf8(text)[i + 1] == tail[i]);
        }
        lemma_low_bytes_are_ascii(text.drop_first());
        assert forall|i: int| 0 <= i < text.len() implies '\0' <= #[trigger] text[i]
            <= '\u{7f}' by {
            if i > 0 {
                assert(text[i] == text.drop_first()[i - 1]);
            }
        }
    }
}

/// A text is a hex string exactly where its UTF-8 encoding is well-formed
/// hex; and the encoding of a hex string has one byte for each digit.
pub proof fn lemma_hex_string_is_hex_text(text: Seq<char>)
    ensures
        is_hex_string(text) <==> is_hex_text(encode_utf8(text)),
        is_hex_string(text) ==> encode_utf8(text) == char_codes(text),
{
    if is_hex_text(encode_utf8(text)) {
        lemma_low_bytes_are_ascii(text);
        is_ascii_chars_encode_utf8(text);
    }
    if is_hex_string(text) {
        is_ascii_chars_encode_utf8(text);
    }
}

/// Reading undoes writing: the hex text written for `bytes` is a hex
/// string, and the bytes it stands for are `bytes`.
pub proof fn law_decode_undoes_encode(bytes: Seq<u8>)
    ensures
        is_hex_string(bytes_to_hex(bytes)),
        hex_string_bytes(bytes_to_hex(bytes)) == bytes,
{
}

#[verifier::external_type_specification]
#[verifier::external_body]
pub struct ExFromHexError(hex::FromHexError);

/// Calls `hex::decode`. The call succeeds exactly on an even number of
/// hexadecimal digits of either case, and then yields one byte per pair of
/// digits, the first digit being the high half; on anything else it reports
/// an error and yields no bytes.
#[verifier::external_body]
fn hex_decode(text: &[u8]) -> (r: Result<Vec<u8>, hex::FromHexError>)
    ensures
        r is Ok <==> is_hex_text(text@),
        r matches Ok(bytes) ==> bytes@ == hex_to_bytes(text@),
{
    hex::decode(text)
}

/// Calls `hex::encode`. The result holds two lower-case hexadecimal digits
/// for each byte, in order, the high half of a byte first.
#[verifier::external_body]
fn hex_encode(bytes: &[u8]) -> (r: String)
    ensures
        r@ == bytes_to_hex(bytes@),
{
    hex::encode(bytes)
}

/// Reads hex text: the bytes that `text` stands for where it is an even
/// number of hexadecimal digits, of either case, and nothing where it is
/// not.
pub fn decode(text: &[u8]) -> (r: Option<Vec<u8>>)
    ensures
        r is Some <==> is_hex_text(text@),
        r matches Some(bytes) ==> bytes@ == hex_to_bytes(text@),
{
    match hex_decode(text) {
        Ok(bytes) => Some(bytes),
        Err(_) => None,
    }
}

/// Reads a hex string: the bytes that `text` stands for where it is an even
/// number of hexadecimal digits, of either case, and nothing where it is
/// not.
pub fn decode_str(text: &str) -> (r: Option<Vec<u8>>)
    ensures
        r is Some <==> is_hex_string(text@),
        r matches Some(bytes) ==> bytes@ == hex_string_bytes(text@),
{
    proof {
        lemma_hex_string_is_hex_text(text@);
    }
    decode(text.as_bytes())
}

/// Writes `bytes` as lower-case hex text.
pub fn encode(bytes: &[u8]) -> (r: String)
    ensures
        r@ == bytes_to_hex(bytes@),
{
    hex_encode(bytes)
}

} // verus!
