//! Decoding of a datagram's payload into a command.
//!
//! A payload is text in UTF-8. Text that begins with `TOGGLE` asks for the
//! next channel pattern; text that is a decimal number of ASCII digits and
//! fits in eight bits sets the angle. Anything else is no command.

use vstd::prelude::*;
use vstd::string::StringSliceAdditionalSpecFns;
use vstd::utf8::{
    is_leading_byte_width_1, partial_valid_utf8, partial_valid_utf8_extend_ascii_block, valid_utf8,
};

verus! {

/// What a payload asks of the controller.
#[derive(Clone, Copy, Debug, PartialEq, Eq, Structural)]
pub enum Command {
    /// Move the selector to the next channel pattern.
    Toggle,
    /// Drive the outputs to the angle given, meant to lie in `0..=180`.
    SetAngle(u8),
}

/// The bytes of the token `TOGGLE`: its six letters in ASCII.
pub open spec fn toggle_token() -> Seq<u8> {
    seq![0x54u8, 0x4f, 0x47, 0x47, 0x4c, 0x45]
}

/// Whether `text` begins with the token `TOGGLE`.
pub open spec fn spec_starts_with_toggle(text: Seq<u8>) -> bool {
    toggle_token().is_prefix_of(text)
}

/// Whether `byte` is one of the ASCII digits `0` to `9`, which are the bytes
/// from `0x30` to `0x39`.
pub open spec fn is_ascii_digit(byte: u8) -> bool {
    0x30 <= byte <= 0x39
}

/// Whether `text` holds ASCII digits only.
pub open spec fn all_ascii_digits(text: Seq<u8>) -> bool {
    forall|i: int| 0 <= i < text.len() ==> is_ascii_digit(#[trigger] text[i])
}

/// The number that an ASCII digit stands for, and 0 for any other byte.
pub open spec fn digit_value(byte: u8) -> nat {
    if is_ascii_digit(byte) {
        (byte - 0x30) as nat
    } else {
        0
    }
}

/// The number that `digits` spell in base ten, the first digit weighing most.
pub open spec fn decimal_value(digits: Seq<u8>) -> nat
    decreases digits.len(),
{
    if digits.len() == 0 {
        0
    } else {
        decimal_value(digits.drop_last()) * 10 + digit_value(digits.last())
    }
}

/// The angle that `text` spells: the value of a text that is not empty, holds
/// ASCII digits only and spells a number up to 255; else none.
pub open spec fn spec_parse_angle(text: Seq<u8>) -> Option<u8> {
    if text.len() > 0 && all_ascii_digits(text) && decimal_value(text) <= 255 {
        Some(decimal_value(text) as u8)
    } else {
        None
    }
}

/// The command that the bytes of a text spell.
pub open spec fn spec_decode_text(text: Seq<u8>) -> Option<Command> {
    if spec_starts_with_toggle(text) {
        Some(Command::Toggle)
    } else {
        match spec_parse_angle(text) {
            Some(angle) => Some(Command::SetAngle(angle)),
            None => None,
        }
    }
}

/// The command that a payload holds: that of its text where it is valid
/// UTF-8, and none where it is not.
pub open spec fn spec_decode(payload: Seq<u8>) -> Option<Command> {
    if valid_utf8(payload) {
        spec_decode_text(payload)
    } else {
        None
    }
}

/// The value of the first digits of a number is no more than that of the
/// whole number.
pub proof fn lemma_decimal_value_of_prefix(digits: Seq<u8>, n: int)
    requires
        0 <= n <= digits.len(),
    ensures
        decimal_value(digits.take(n)) <= decimal_value(digits),
    decreases digits.len() - n,
{
    if n < digits.len() {
        lemma_decimal_value_of_prefix(digits, n + 1);
        assert(digits.take(n + 1).drop_last() =~= digits.take(n));
    } else {
        assert(digits.take(n) =~= digits);
    }
}

/// A text that spells an angle is valid UTF-8 and does not begin with the
/// token, so a payload holds `SetAngle(angle)` exactly where it spells
/// `angle`, and holds `Toggle` exactly where it is valid UTF-8 and begins
/// with the token.
pub proof fn lemma_decode_cases(payload: Seq<u8>)
    ensures
        spec_parse_angle(payload) is Some ==> valid_utf8(payload) && !spec_starts_with_toggle(
            payload,
        ),
        forall|angle: u8|
            spec_decode(payload) == Some(Command::SetAngle(angle)) <==> spec_parse_angle(payload)
                == Some(angle),
        spec_decode(payload) == Some(Command::Toggle) <==> valid_utf8(payload)
            && spec_starts_with_toggle(payload),
{
    if spec_parse_angle(payload) is Some {
        assert forall|i: int| 0 <= i < payload.len() implies #[trigger] is_leading_byte_width_1(
            payload[i],
        ) by {
            assert(is_ascii_digit(payload[i]));
        }
        assert(payload.subrange(0, 0) =~= Seq::<u8>::empty());
        assert(partial_valid_utf8(payload, 0));
        partial_valid_utf8_extend_ascii_block(payload, 0, payload.len() as int);
        assert(payload.subrange(0, payload.len() as int) =~= payload);
        if spec_starts_with_toggle(payload) {
            assert(toggle_token()[0] == payload.subrange(0, 6)[0]);
            assert(is_ascii_digit(payload[0]));
        }
    }
}

/// Tells whether `text` begins with the token `TOGGLE`.
pub fn starts_with_toggle(text: &[u8]) -> (found: bool)
    ensures
        found == spec_starts_with_toggle(text@),
{
    if text.len() < 6 {
        return false;
    }
    let found = text[0] == 0x54 && text[1] == 0x4f && text[2] == 0x47 && text[3] == 0x47 && text[4]
        == 0x4c && text[5] == 0x45;
    proof {
        let head = text@.subrange(0, 6);
        if found {
            assert(toggle_token() =~= head);
        } else {
            if toggle_token() =~= head {
                assert(head[0] == 0x54 && head[1] == 0x4f && head[2] == 0x47 && head[3] == 0x47
                    && head[4] == 0x4c && head[5] == 0x45);
            }
        }
    }
    found
}

/// Reads `text` as a decimal number of eight bits.
///
/// The result is the number where `text` is not empty, holds ASCII digits
/// only and spells a number up to 255, whatever zeros lead it; else `None`.
pub fn parse_angle(text: &[u8]) -> (angle: Option<u8>)
    ensures
        angle == spec_parse_angle(text@),
{
    if text.len() == 0 {
        return None;
    }
    let mut value: u16 = 0;
    let mut i: usize = 0;
    while i < text.len()
        invariant
            i <= text.len(),
            all_ascii_digits(text@.take(i as int)),
            value == decimal_value(text@.take(i as int)),
            value <= 255,
        decreases text.len() - i,
    {
        let byte = text[i];
        if byte < 0x30 || byte > 0x39 {
            return None;
        }
        proof {
            assert(text@.take(i + 1).drop_last() =~= text@.take(i as int));
            assert(text@.take(i + 1).last() == byte);
        }
        let next: u16 = value * 10 + (byte - 0x30) as u16;
        if next > 255 {
            proof {
                lemma_decimal_value_of_prefix(text@, i + 1);
            }
            return None;
        }
        value = next;
        i += 1;
    }
    proof {
        assert(text@.take(i as int) =~= text@);
    }
    Some(value as u8)
}

/// Decodes the command that a text spells.
///
/// Text that begins with `TOGGLE` is `Toggle`, whatever follows the token.
/// Any other text is `SetAngle` with its value where the whole of it is a
/// decimal number of ASCII digits up to 255, and no command where it is not.
pub fn decode_text(text: &str) -> (command: Option<Command>)
    ensures
        command == spec_decode_text(text.spec_bytes()),
{
    let bytes = text.as_bytes();
    if starts_with_toggle(bytes) {
        Some(Command::Toggle)
    } else {
        match parse_angle(bytes) {
            Some(angle) => Some(Command::SetAngle(angle)),
            None => None,
        }
    }
}

/// Reads `bytes` as text with `std::str::from_utf8`.
///
/// Trusted: the call gives a text exactly where the bytes are valid UTF-8,
/// and the text then holds those same bytes.
#[verifier::external_body]
fn utf8_text(bytes: &[u8]) -> (text: Option<&str>)
    ensures
        text is Some <==> valid_utf8(bytes@),
        text matches Some(t) ==> t.spec_bytes() == bytes@,
{
    std::str::from_utf8(bytes).ok()
}

/// Decodes the command that a payload holds, if any.
///
/// A payload that is not valid UTF-8 holds no command, even where it begins
/// with the token; a valid one holds the command that its text spells. The
/// call never fails: what cannot be decoded is dropped with `None`.
pub fn decode(payload: &[u8]) -> (command: Option<Command>)
    ensures
        command == spec_decode(payload@),
{
    match utf8_text(payload) {
        Some(text) => decode_text(text),
        None => None,
    }
}

} // verus!
