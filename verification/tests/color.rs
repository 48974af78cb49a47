use fluss::color::{hex_color_cuts_char_exec, hex_const_indices, hex_digit, parse_hex_color, HexColor, HexColorError};

#[test]
fn hex_digits_have_their_value() {
    assert_eq!(hex_digit(b'0'), 0);
    assert_eq!(hex_digit(b'9'), 9);
    assert_eq!(hex_digit(b'a'), 10);
    assert_eq!(hex_digit(b'F'), 15);
}

#[test]
fn six_digits_give_an_opaque_colour() {
    assert_eq!(parse_hex_color("#FFFFFF"), Ok(HexColor { r: 255, g: 255, b: 255, a: 255 }));
    assert_eq!(parse_hex_color("#102030"), Ok(HexColor { r: 16, g: 32, b: 48, a: 255 }));
}

#[test]
fn eight_digits_give_alpha_and_case_does_not_matter() {
    assert_eq!(parse_hex_color("#ffffffff"), Ok(HexColor { r: 255, g: 255, b: 255, a: 255 }));
    assert_eq!(parse_hex_color("#0a0B0c80"), Ok(HexColor { r: 10, g: 11, b: 12, a: 128 }));
    assert_eq!(parse_hex_color("#AbCdEf"), parse_hex_color("#aBcDeF"));
}

#[test]
fn other_lengths_are_invalid_format() {
    assert_eq!(parse_hex_color("#FFF"), Err(HexColorError::InvalidFormat));
    assert_eq!(parse_hex_color("FFFFFF"), Err(HexColorError::InvalidFormat));
    assert_eq!(parse_hex_color("FFFFFFFFF"), Err(HexColorError::InvalidFormat));
    assert_eq!(parse_hex_color(""), Err(HexColorError::InvalidFormat));
}

#[test]
fn bad_digits_are_invalid_digit() {
    assert_eq!(parse_hex_color("#GG0000"), Err(HexColorError::InvalidDigit));
    assert_eq!(parse_hex_color("#00000Z"), Err(HexColorError::InvalidDigit));
    // A channel read as a base-16 number may carry a leading plus sign.
    assert_eq!(parse_hex_color("#+f0000"), Ok(HexColor { r: 15, g: 0, b: 0, a: 255 }));
}

#[test]
fn text_cut_inside_a_character_is_detected() {
    // "é" is two bytes; the first channel would end inside it.
    assert!(hex_color_cuts_char_exec("#0é000"));
    assert!(!hex_color_cuts_char_exec("#é0000"));
    assert_eq!(parse_hex_color("#é0000"), Err(HexColorError::InvalidDigit));
    assert!(!hex_color_cuts_char_exec("#000000"));
    assert!(!hex_color_cuts_char_exec("#000"));
}

#[test]
fn lookup_indices_of_a_constant_colour() {
    assert_eq!(hex_const_indices("#FF8001"), [255, 128, 1]);
    assert_eq!(hex_const_indices("#000000"), [0, 0, 0]);
}

#[test]
fn errors_are_reported_with_their_text() {
    assert_eq!(
        HexColorError::InvalidFormat.message(),
        "Error parsing hex. Example of valid formats: #FFFFFF or #ffffffff"
    );
    assert_eq!(
        HexColorError::InvalidDigit.message(),
        "Error parsing hex: invalid digit found in string"
    );
}
