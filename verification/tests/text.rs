use uidsys::text::chars_of;
use uidsys::text::digit_to_char;
use uidsys::text::hex_digit_to_char;
use uidsys::text::push_chars;
use uidsys::text::push_decimal;
use uidsys::text::push_hex8;
use uidsys::text::push_padded;
use uidsys::text::push_signed_decimal;

fn hex8(value: u32) -> String {
    let mut out = String::new();
    push_hex8(&mut out, value);
    out
}

fn decimal(value: u32) -> String {
    let mut out = String::new();
    push_decimal(&mut out, value);
    out
}

fn signed(value: i32) -> String {
    let mut out = String::new();
    push_signed_decimal(&mut out, value);
    out
}

fn padded(text: &str, width: usize) -> String {
    let mut out = String::new();
    push_padded(&mut out, text, width);
    out
}

#[test]
fn lists_the_characters_of_a_string() {
    assert_eq!(chars_of(""), Vec::<char>::new());
    assert_eq!(chars_of("a=b"), vec!['a', '=', 'b']);
    assert_eq!(chars_of("é\n"), vec!['é', '\n']);
}

#[test]
fn appends_a_range_of_characters() {
    let chars = ['a', 'b', 'c', 'd'];
    let mut out = String::from("x");
    push_chars(&mut out, &chars, 1, 3);
    assert_eq!(out, "xbc");
    push_chars(&mut out, &chars, 2, 2);
    assert_eq!(out, "xbc");
    push_chars(&mut out, &chars, 0, 4);
    assert_eq!(out, "xbcabcd");
}

#[test]
fn shows_each_digit() {
    let decimal_digits: String = (0..10u8).map(digit_to_char).collect();
    assert_eq!(decimal_digits, "0123456789");
    let hex_digits: String = (0..16u8).map(hex_digit_to_char).collect();
    assert_eq!(hex_digits, "0123456789ABCDEF");
}

#[test]
fn writes_hex_in_eight_upper_case_digits() {
    assert_eq!(hex8(0), "00000000");
    assert_eq!(hex8(1), "00000001");
    assert_eq!(hex8(0x0001_0005), "00010005");
    assert_eq!(hex8(0xDEAD_BEEF), "DEADBEEF");
    assert_eq!(hex8(0x1234_5678), "12345678");
    assert_eq!(hex8(0x90AB_CDEF), "90ABCDEF");
    assert_eq!(hex8(u32::MAX), "FFFFFFFF");
}

#[test]
fn writes_hex_as_the_standard_formatter_does() {
    for value in [0u32, 9, 10, 15, 16, 255, 256, 0x0FFF_FFFF, 0x1000_0000, 0x8000_0000, u32::MAX] {
        assert_eq!(hex8(value), format!("{:08X}", value));
    }
}

#[test]
fn writes_decimal_without_leading_zeros() {
    assert_eq!(decimal(0), "0");
    assert_eq!(decimal(9), "9");
    assert_eq!(decimal(10), "10");
    assert_eq!(decimal(254), "254");
    assert_eq!(decimal(61440), "61440");
    assert_eq!(decimal(u32::MAX), "4294967295");
}

#[test]
fn writes_a_sign_in_front_of_a_negative_number() {
    assert_eq!(signed(0), "0");
    assert_eq!(signed(1), "1");
    assert_eq!(signed(-1), "-1");
    assert_eq!(signed(-4095), "-4095");
    assert_eq!(signed(61440), "61440");
    assert_eq!(signed(i32::MAX), "2147483647");
    assert_eq!(signed(i32::MIN), "-2147483648");
}

#[test]
fn appends_behind_what_is_there() {
    let mut out = String::from("n=");
    push_signed_decimal(&mut out, -7);
    out.push(' ');
    push_hex8(&mut out, 0xAB);
    assert_eq!(out, "n=-7 000000AB");
}

#[test]
fn pads_with_spaces_behind_the_text() {
    assert_eq!(padded("GAME DLC", 19), "GAME DLC           ");
    assert_eq!(padded("", 3), "   ");
    assert_eq!(padded("abc", 3), "abc");
    assert_eq!(padded("abcd", 3), "abcd");
    assert_eq!(padded("abc", 0), "abc");
    assert_eq!(padded("é", 3), "é  ");
}

#[test]
fn pads_as_the_standard_formatter_does() {
    for text in ["", "Error", "SYSTEM ESSENTIAL", "vWII SYSTEM CHANNEL", "a label that is too wide"] {
        assert_eq!(padded(text, 19), format!("{: <19}", text));
    }
}
