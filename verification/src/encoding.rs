//! Percent-encoding of titles for use inside a header value.
//!
//! Encoding is done by the `urlencoding` crate. This module says what the
//! encoded form is, byte for byte, and proves that it can be decoded again
//! and that it never holds a byte a header value could not carry.

use vstd::prelude::*;
use vstd::utf8::{decode_utf8, encode_utf8, is_ascii_chars};

verus! {

/// The bytes that are copied as they are: ASCII letters and digits and
/// `-`, `.`, `_`, `~`.
pub open spec fn is_unreserved(byte: u8) -> bool {
    ||| 0x30 <= byte <= 0x39
    ||| 0x41 <= byte <= 0x5a
    ||| 0x61 <= byte <= 0x7a
    ||| byte == 0x2d
    ||| byte == 0x2e
    ||| byte == 0x5f
    ||| byte == 0x7e
}

/// The upper-case hexadecimal digit for a value below sixteen.
pub open spec fn hex_digit(value: u8) -> u8 {
    if value < 10 {
        (0x30 + value) as u8
    } else {
        (0x37 + value) as u8
    }
}

/// Whether a byte is a hexadecimal digit of either case.
pub open spec fn is_hex_digit(byte: u8) -> bool {
    ||| 0x30 <= byte <= 0x39
    ||| 0x41 <= byte <= 0x46
    ||| 0x61 <= byte <= 0x66
}

/// The value of a hexadecimal digit of either case.
pub open spec fn hex_value(byte: u8) -> u8 {
    if 0x30 <= byte <= 0x39 {
        (byte - 0x30) as u8
    } else if 0x41 <= byte <= 0x46 {
        (byte - 0x37) as u8
    } else {
        (byte - 0x57) as u8
    }
}

/// How a single byte is written: itself when unreserved, otherwise `%`
/// followed by its two upper-case hexadecimal digits.
pub open spec fn encoded_byte(byte: u8) -> Seq<u8> {
    if is_unreserved(byte) {
        seq![byte]
    } else {
        seq![0x25u8, hex_digit(byte / 16), hex_digit(byte % 16)]
    }
}

/// The percent-encoding of a byte string: the encodings of its bytes, in order.
pub open spec fn percent_encoded(bytes: Seq<u8>) -> Seq<u8>
    decreases bytes.len(),
{
    if bytes.len() == 0 {
        Seq::empty()
    } else {
        encoded_byte(bytes[0]) + percent_encoded(bytes.drop_first())
    }
}

/// The byte string that a percent-encoded one stands for. A `%` that is not
/// followed by two hexadecimal digits stands for itself.
pub open spec fn percent_decoded(bytes: Seq<u8>) -> Seq<u8>
    decreases bytes.len(),
{
    if bytes.len() == 0 {
        Seq::empty()
    } else if bytes[0] == 0x25 && bytes.len() >= 3 && is_hex_digit(bytes[1]) && is_hex_digit(
        bytes[2],
    ) {
        seq![(hex_value(bytes[1]) * 16 + hex_value(bytes[2])) as u8] + percent_decoded(
            bytes.subrange(3, bytes.len() as int),
        )
    } else {
        seq![bytes[0]] + percent_decoded(bytes.drop_first())
    }
}

/// ASCII bytes read as text, one character per byte.
pub open spec fn ascii_text(bytes: Seq<u8>) -> Seq<char> {
    Seq::new(bytes.len(), |i: int| bytes[i] as char)
}

/// The percent-encoded form of a text: its UTF-8 bytes, percent-encoded.
pub open spec fn encoded_text(text: Seq<char>) -> Seq<char> {
    ascii_text(percent_encoded(encode_utf8(text)))
}

/// The text that a percent-encoded text stands for.
pub open spec fn decoded_text(text: Seq<char>) -> Seq<char> {
    decode_utf8(percent_decoded(encode_utf8(text)))
}

/// Whether every character may stand in a header value: visible ASCII or a
/// space.
pub open spec fn is_header_safe(text: Seq<char>) -> bool {
    forall|i: int| 0 <= i < text.len() ==> 0x20 <= #[trigger] (text[i] as u32) <= 0x7e
}

/// Calls `urlencoding::encode`, which walks the UTF-8 bytes of its argument,
/// copies each unreserved byte and writes every other byte as `%` and two
/// upper-case hexadecimal digits. The contract claims that the returned text
/// is exactly that encoding, read as ASCII.
#[verifier::external_body]
fn urlencode(text: &str) -> (encoded: String)
    ensures
        encoded@ == encoded_text(text@),
{
    urlencoding::encode(text).into_owned()
}

/// Percent-encodes a text so that it can stand in a header value.
pub fn percent_encode(text: &str) -> (encoded: String)
    ensures
        encoded@ == encoded_text(text@),
        is_header_safe(encoded@),
        decoded_text(encoded@) == text@,
{
    let encoded = urlencode(text);
    proof {
        lemma_encoded_text_is_header_safe(text@);
        lemma_text_round_trip(text@);
    }
    encoded
}

/// Every byte of an encoding is an unreserved byte, `%`, or an upper-case
/// hexadecimal digit.
pub proof fn lemma_encoded_bytes_are_plain(bytes: Seq<u8>)
    ensures
        forall|i: int|
            0 <= i < percent_encoded(bytes).len() ==> {
                let byte = #[trigger] percent_encoded(bytes)[i];
                is_unreserved(byte) || byte == 0x25
            },
    decreases bytes.len(),
{
    if bytes.len() > 0 {
        lemma_encoded_bytes_are_plain(bytes.drop_first());
        let head = encoded_byte(bytes[0]);
        let tail = percent_encoded(bytes.drop_first());
        assert forall|i: int| 0 <= i < percent_encoded(bytes).len() implies {
            let byte = #[trigger] percent_encoded(bytes)[i];
            is_unreserved(byte) || byte == 0x25
        } by {
            if i < head.len() {
                assert(percent_encoded(bytes)[i] == head[i]);
            } else {
                assert(percent_encoded(bytes)[i] == tail[i - head.len()]);
            }
        }
    }
}

/// Decoding an encoding gives back the bytes that were encoded.
pub proof fn lemma_percent_round_trip(bytes: Seq<u8>)
    ensures
        percent_decoded(percent_encoded(bytes)) == bytes,
    decreases bytes.len(),
{
    if bytes.len() > 0 {
        let byte = bytes[0];
        let rest = bytes.drop_first();
        let tail = percent_encoded(rest);
        let whole = percent_encoded(bytes);
        lemma_percent_round_trip(rest);
        if is_unreserved(byte) {
            assert(whole[0] == byte);
            assert(whole.drop_first() =~= tail);
        } else {
            assert(whole[0] == 0x25);
            assert(whole[1] == hex_digit(byte / 16));
            assert(whole[2] == hex_digit(byte % 16));
            assert(whole.subrange(3, whole.len() as int) =~= tail);
            assert(hex_value(hex_digit(byte / 16)) == byte / 16);
            assert(hex_value(hex_digit(byte % 16)) == byte % 16);
        }
        assert(percent_decoded(whole) =~= seq![byte] + rest);
        assert(seq![byte] + rest =~= bytes);
    }
}

/// ASCII bytes read as text and written back as UTF-8 are the same bytes.
pub proof fn lemma_ascii_text_bytes(bytes: Seq<u8>)
    requires
        forall|i: int| 0 <= i < bytes.len() ==> #[trigger] bytes[i] < 0x80,
    ensures
        is_ascii_chars(ascii_text(bytes)),
        encode_utf8(ascii_text(bytes)) == bytes,
{
    let text = ascii_text(bytes);
    assert(is_ascii_chars(text)) by {
        assert forall|i: int| 0 <= i < text.len() implies '\0' <= #[trigger] text[i]
            <= '\u{7f}' by {
            assert(bytes[i] < 0x80);
        }
    }
    vstd::utf8::is_ascii_chars_encode_utf8(text);
    assert forall|i: int| 0 <= i < bytes.len() implies encode_utf8(text)[i] == bytes[i] by {
        assert(text[i] as u8 == encode_utf8(text)[i]);
        assert(bytes[i] < 0x80);
    }
    assert(encode_utf8(text) =~= bytes);
}

/// Law: percent-decoding the encoded form of any text gives back that text,
/// character for character.
pub proof fn lemma_text_round_trip(text: Seq<char>)
    ensures
        decoded_text(encoded_text(text)) == text,
{
    let bytes = encode_utf8(text);
    let encoded = percent_encoded(bytes);
    lemma_encoded_bytes_are_plain(bytes);
    assert forall|i: int| 0 <= i < encoded.len() implies #[trigger] encoded[i] < 0x80 by {
        let byte = encoded[i];
        assert(is_unreserved(byte) || byte == 0x25);
    }
    lemma_ascii_text_bytes(encoded);
    lemma_percent_round_trip(bytes);
    vstd::utf8::encode_utf8_decode_utf8(text);
}

/// Law: the encoded form of any text holds only characters that a header
/// value may carry.
pub proof fn lemma_encoded_text_is_header_safe(text: Seq<char>)
    ensures
        is_header_safe(encoded_text(text)),
{
    let encoded = percent_encoded(encode_utf8(text));
    lemma_encoded_bytes_are_plain(encode_utf8(text));
    assert forall|i: int| 0 <= i < encoded_text(text).len() implies 0x20 <= #[trigger] (
    encoded_text(text)[i] as u32) <= 0x7e by {
        let byte = encoded[i];
        assert(is_unreserved(byte) || byte == 0x25);
        assert(encoded_text(text)[i] == byte as char);
    }
}

} // verus!
