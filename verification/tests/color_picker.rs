use forma_fractalis::color_picker::{format_hex_color, parse_hex_color};

#[test]
fn parse_hex_valid() {
    assert_eq!(parse_hex_color("FF0000"), Some([255, 0, 0]));
    assert_eq!(parse_hex_color("#00ff00"), Some([0, 255, 0]));
    assert_eq!(parse_hex_color("0000FF"), Some([0, 0, 255]));
}

#[test]
fn parse_hex_invalid() {
    assert_eq!(parse_hex_color("GGHHII"), None);
    assert_eq!(parse_hex_color("FF00"), None);
    assert_eq!(parse_hex_color(""), None);
}

#[test]
fn parse_hex_trims_whitespace_and_every_leading_hash() {
    assert_eq!(parse_hex_color("  #1a2B3c\n"), Some([0x1a, 0x2b, 0x3c]));
    assert_eq!(parse_hex_color("##102030"), Some([0x10, 0x20, 0x30]));
    assert_eq!(parse_hex_color("\u{3000}abcdef\t"), Some([0xab, 0xcd, 0xef]));
    // whitespace after the hash is not trimmed
    assert_eq!(parse_hex_color("# 102030"), None);
}

#[test]
fn parse_hex_length_must_be_six() {
    assert_eq!(parse_hex_color("1234567"), None);
    assert_eq!(parse_hex_color("12345"), None);
    assert_eq!(parse_hex_color("#"), None);
}

#[test]
fn parse_hex_needs_six_hex_digits() {
    assert_eq!(parse_hex_color("+F+F+F"), None);
    assert_eq!(parse_hex_color("+F0000"), None);
    assert_eq!(parse_hex_color("-F0000"), None);
    assert_eq!(parse_hex_color("12 456"), None);
    assert_eq!(parse_hex_color("aBcDeF"), Some([0xab, 0xcd, 0xef]));
}

#[test]
fn parse_hex_non_ascii_is_rejected() {
    // three two-byte characters: six bytes, slices on boundaries, no digits
    assert_eq!(parse_hex_color("ééé"), None);
    assert_eq!(parse_hex_color("ab\u{e9}cd"), None);
    // two-byte slices of these fields would split a character
    assert_eq!(parse_hex_color("a\u{e9}123"), None);
    assert_eq!(parse_hex_color("\u{e9}\u{e9}\u{e9}\u{e9}\u{e9}\u{e9}"), None);
}

#[test]
fn format_hex_color_writes_upper_case_pairs() {
    assert_eq!(format_hex_color([255, 0, 128]), "FF0080");
    assert_eq!(format_hex_color([0, 0, 0]), "000000");
    assert_eq!(format_hex_color([10, 171, 205]), "0AABCD");
}

#[test]
fn hex_color_round_trip() {
    for rgb in [[0u8, 0, 0], [255, 255, 255], [128, 64, 200], [1, 16, 254]] {
        assert_eq!(parse_hex_color(&format_hex_color(rgb)), Some(rgb));
    }
}
