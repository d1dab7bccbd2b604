//! The one setting of the server: the port it listens on.

use vstd::prelude::*;
use vstd::string::StringSliceAdditionalSpecFns;

verus! {

/// The port used when none is configured.
pub const DEFAULT_PORT: u16 = 3000;

/// Whether a byte is an ASCII decimal digit.
pub open spec fn is_digit(byte: u8) -> bool {
    0x30 <= byte <= 0x39
}

/// The value of a decimal digit, and 0 for any other byte.
pub open spec fn digit_value(byte: u8) -> nat {
    if is_digit(byte) {
        (byte - 0x30) as nat
    } else {
        0
    }
}

/// Whether every byte is a decimal digit.
pub open spec fn all_digits(bytes: Seq<u8>) -> bool {
    forall|i: int| 0 <= i < bytes.len() ==> is_digit(#[trigger] bytes[i])
}

/// The number that a string of decimal digits writes.
pub open spec fn decimal_value(digits: Seq<u8>) -> nat
    decreases digits.len(),
{
    if digits.len() == 0 {
        0
    } else {
        decimal_value(digits.drop_last()) * 10 + digit_value(digits.last())
    }
}

/// A text without the `+` it may begin with.
pub open spec fn unsigned_part(text: Seq<u8>) -> Seq<u8> {
    if text.len() > 0 && text[0] == 0x2b {
        text.drop_first()
    } else {
        text
    }
}

/// The port that a text writes: an optional `+`, then one or more decimal
/// digits and nothing else, with a value of at most 65535.
pub open spec fn parsed_port(text: Seq<u8>) -> Option<u16> {
    let digits = unsigned_part(text);
    if digits.len() > 0 && all_digits(digits) && decimal_value(digits) <= u16::MAX {
        Some(decimal_value(digits) as u16)
    } else {
        None
    }
}

/// The port to listen on, given the configured text if there is one: the
/// port it writes, or the default.
pub open spec fn configured_port(value: Option<Seq<u8>>) -> u16 {
    match value {
        Some(text) => match parsed_port(text) {
            Some(port) => port,
            None => DEFAULT_PORT,
        },
        None => DEFAULT_PORT,
    }
}

/// A decimal number is at least as large as any of its prefixes.
proof fn lemma_decimal_value_grows(digits: Seq<u8>, count: int)
    requires
        0 <= count <= digits.len(),
    ensures
        decimal_value(digits.subrange(0, count)) <= decimal_value(digits),
    decreases digits.len(),
{
    if count == digits.len() {
        assert(digits.subrange(0, count) =~= digits);
    } else {
        lemma_decimal_value_grows(digits.drop_last(), count);
        assert(digits.drop_last().subrange(0, count) =~= digits.subrange(0, count));
    }
}

/// Reads a port number from a text.
pub fn parse_port(text: &str) -> (port: Option<u16>)
    ensures
        port == parsed_port(text.spec_bytes()),
{
    let bytes = text.as_bytes();
    let start: usize = if bytes.len() > 0 && bytes[0] == 0x2b {
        1
    } else {
        0
    };
    let ghost digits = unsigned_part(bytes@);
    assert(digits =~= bytes@.subrange(start as int, bytes@.len() as int));
    if start == bytes.len() {
        return None;
    }
    let mut value: u32 = 0;
    let mut index: usize = start;
    while index < bytes.len()
        invariant
            start <= index <= bytes.len(),
            bytes@ == text.spec_bytes(),
            digits == unsigned_part(bytes@),
            digits == bytes@.subrange(start as int, bytes@.len() as int),
            all_digits(digits.subrange(0, index - start)),
            value == decimal_value(digits.subrange(0, index - start)),
            value <= u16::MAX,
        decreases bytes.len() - index,
    {
        let byte = bytes[index];
        let ghost seen = digits.subrange(0, index - start);
        let ghost more = digits.subrange(0, index - start + 1);
        assert(more.drop_last() =~= seen);
        assert(more.last() == byte);
        if byte < 0x30 || byte > 0x39 {
            assert(!is_digit(digits[index - start]));
            return None;
        }
        value = value * 10 + (byte - 0x30) as u32;
        if value > 65535 {
            proof {
                lemma_decimal_value_grows(digits, index - start + 1);
            }
            return None;
        }
        assert(all_digits(more)) by {
            assert forall|i: int| 0 <= i < more.len() implies is_digit(#[trigger] more[i]) by {
                if i < seen.len() {
                    assert(more[i] == seen[i]);
                }
            }
        }
        index = index + 1;
    }
    assert(digits.subrange(0, index - start) =~= digits);
    Some(value as u16)
}

/// Chooses the port to listen on from the configured text, if any. A text
/// that is not a port number is passed over in silence.
pub fn get_port(value: Option<&str>) -> (port: u16)
    ensures
        port == configured_port(
            match value {
                Some(text) => Some(text.spec_bytes()),
                None => None,
            },
        ),
{
    match value {
        Some(text) => match parse_port(text) {
            Some(port) => port,
            None => DEFAULT_PORT,
        },
        None => DEFAULT_PORT,
    }
}

} // verus!
