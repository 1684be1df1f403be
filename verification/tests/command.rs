use actuator_core::command::{decode, decode_text, parse_angle, starts_with_toggle, Command};

#[test]
fn toggle_token_yields_toggle() {
    assert_eq!(decode(b"TOGGLE"), Some(Command::Toggle));
}

#[test]
fn decimal_number_yields_set_angle() {
    assert_eq!(decode(b"90"), Some(Command::SetAngle(90)));
}

#[test]
fn unrecognised_text_yields_no_command() {
    assert_eq!(decode(b"abc"), None);
}

#[test]
fn invalid_utf8_yields_no_command() {
    assert_eq!(decode(&[0xff, 0xfe, 0xfd]), None);
    assert_eq!(decode(&[0xc3]), None);
    assert_eq!(decode(&[0xc0, 0x80]), None);
    assert_eq!(decode(&[0xed, 0xa0, 0x80]), None);
    assert_eq!(decode(&[0x39, 0x30, 0x80]), None);
}

#[test]
fn toggle_is_matched_as_a_prefix() {
    assert_eq!(decode(b"TOGGLE\n"), Some(Command::Toggle));
    assert_eq!(decode(b"TOGGLE 90"), Some(Command::Toggle));
    assert_eq!(decode(b"TOGGLED"), Some(Command::Toggle));
    assert_eq!(decode("TOGGLE\u{e9}".as_bytes()), Some(Command::Toggle));
}

#[test]
fn toggle_followed_by_invalid_utf8_yields_no_command() {
    assert_eq!(decode(b"TOGGLE\xff"), None);
    assert_eq!(decode(b"TOGGLE\xc3"), None);
}

#[test]
fn toggle_must_match_exactly_and_from_the_start() {
    assert_eq!(decode(b"toggle"), None);
    assert_eq!(decode(b"TOGGL"), None);
    assert_eq!(decode(b" TOGGLE"), None);
    assert_eq!(decode(b"TOGGLe"), None);
    assert_eq!(decode(b"XTOGGLE"), None);
}

#[test]
fn every_eight_bit_number_is_an_angle() {
    for value in 0..=255u8 {
        let text = format!("{}", value);
        assert_eq!(decode(text.as_bytes()), Some(Command::SetAngle(value)));
    }
}

#[test]
fn angles_above_180_are_passed_through() {
    assert_eq!(decode(b"181"), Some(Command::SetAngle(181)));
    assert_eq!(decode(b"255"), Some(Command::SetAngle(255)));
}

#[test]
fn numbers_beyond_eight_bits_yield_no_command() {
    assert_eq!(decode(b"256"), None);
    assert_eq!(decode(b"260"), None);
    assert_eq!(decode(b"1000"), None);
    assert_eq!(decode(b"99999999999999999999999999"), None);
}

#[test]
fn leading_zeros_do_not_change_the_angle() {
    assert_eq!(decode(b"0"), Some(Command::SetAngle(0)));
    assert_eq!(decode(b"007"), Some(Command::SetAngle(7)));
    assert_eq!(decode(b"0000000000000000000000255"), Some(Command::SetAngle(255)));
    assert_eq!(decode(b"0000000000000000000000256"), None);
}

#[test]
fn the_whole_text_must_be_digits() {
    assert_eq!(decode(b""), None);
    assert_eq!(decode(b" 90"), None);
    assert_eq!(decode(b"90 "), None);
    assert_eq!(decode(b"90\n"), None);
    assert_eq!(decode(b"9a"), None);
    assert_eq!(decode(b"-1"), None);
    assert_eq!(decode(b"+90"), None);
    assert_eq!(decode(b"9.0"), None);
    assert_eq!(decode(b"0x10"), None);
    assert_eq!(decode(b"1_0"), None);
    assert_eq!(decode("\u{0663}".as_bytes()), None);
}

#[test]
fn decode_text_agrees_with_decode_on_text() {
    for text in ["TOGGLE", "TOGGLE now", "90", "0", "255", "256", "abc", "", "T", "18 0"] {
        assert_eq!(decode_text(text), decode(text.as_bytes()));
    }
    assert_eq!(decode_text("TOGGLE"), Some(Command::Toggle));
    assert_eq!(decode_text("180"), Some(Command::SetAngle(180)));
    assert_eq!(decode_text("one"), None);
}

#[test]
fn parse_angle_reads_digits_only() {
    assert_eq!(parse_angle(b"0"), Some(0));
    assert_eq!(parse_angle(b"90"), Some(90));
    assert_eq!(parse_angle(b"255"), Some(255));
    assert_eq!(parse_angle(b"256"), None);
    assert_eq!(parse_angle(b""), None);
    assert_eq!(parse_angle(b"25a"), None);
    assert_eq!(parse_angle(b"/"), None);
    assert_eq!(parse_angle(b":"), None);
}

#[test]
fn starts_with_toggle_compares_six_bytes() {
    assert!(starts_with_toggle(b"TOGGLE"));
    assert!(starts_with_toggle(b"TOGGLE\xff"));
    assert!(!starts_with_toggle(b"TOGGL"));
    assert!(!starts_with_toggle(b""));
    assert!(!starts_with_toggle(b"TOGGEL"));
}
