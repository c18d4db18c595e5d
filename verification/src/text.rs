//! Building blocks for rendered text: characters of a string, digits, padding.

use vstd::prelude::*;
use vstd::string::StrSliceExecFns;
use vstd::string::StringExecFns;

verus! {

/// `String::push` of the standard library: the character is appended at the
/// end, and what the string held before stays in front of it.
pub assume_specification[ String::push ](text: &mut String, ch: char)
    ensures
        final(text)@ == old(text)@.push(ch),
;

/// The characters of a string, in order.
pub fn chars_of(text: &str) -> (chars: Vec<char>)
    ensures
        chars@ == text@,
{
    let mut chars: Vec<char> = Vec::new();
    for ch in it: text.chars()
        invariant
            it.seq() == text@,
            chars@ == it.seq().take(it.index()),
    {
        chars.push(ch);
    }
    chars
}

/// Appends the characters `chars[from..to]` to `out`.
pub fn push_chars(out: &mut String, chars: &[char], from: usize, to: usize)
    requires
        from <= to <= chars@.len(),
    ensures
        final(out)@ == old(out)@ + chars@.subrange(from as int, to as int),
{
    let mut at: usize = from;
    while at < to
        invariant
            from <= at <= to <= chars@.len(),
            out@ == old(out)@ + chars@.subrange(from as int, at as int),
        decreases to - at,
    {
        out.push(chars[at]);
        at += 1;
    }
}

/// The character that shows one decimal digit.
pub open spec fn digit_char(digit: int) -> char
    recommends
        0 <= digit < 10,
{
    ('0' as int + digit) as char
}

/// The character that shows one hexadecimal digit, in upper case.
pub open spec fn hex_digit_char(digit: int) -> char
    recommends
        0 <= digit < 16,
{
    if digit < 10 {
        digit_char(digit)
    } else {
        ('A' as int + digit - 10) as char
    }
}

/// The decimal numeral of a natural number, without leading zeros.
pub open spec fn decimal(value: nat) -> Seq<char>
    decreases value,
{
    if value < 10 {
        seq![digit_char(value as int)]
    } else {
        decimal(value / 10).push(digit_char((value % 10) as int))
    }
}

/// The decimal numeral of an integer: a minus sign in front of a negative one.
pub open spec fn signed_decimal(value: int) -> Seq<char> {
    if value < 0 {
        seq!['-'] + decimal((-value) as nat)
    } else {
        decimal(value as nat)
    }
}

/// A 32-bit number as eight upper-case hexadecimal digits, zeros in front.
pub open spec fn hex8(value: u32) -> Seq<char> {
    seq![
        hex_digit_char((value / 0x1000_0000 % 16) as int),
        hex_digit_char((value / 0x0100_0000 % 16) as int),
        hex_digit_char((value / 0x0010_0000 % 16) as int),
        hex_digit_char((value / 0x0001_0000 % 16) as int),
        hex_digit_char((value / 0x1000 % 16) as int),
        hex_digit_char((value / 0x0100 % 16) as int),
        hex_digit_char((value / 0x0010 % 16) as int),
        hex_digit_char((value % 16) as int),
    ]
}

/// `text` with spaces behind it up to `width` characters; unchanged where it
/// is that long already.
pub open spec fn padded(text: Seq<char>, width: nat) -> Seq<char> {
    if text.len() >= width {
        text
    } else {
        text + Seq::new((width - text.len()) as nat, |k: int| ' ')
    }
}

/// The character for a digit below ten.
pub fn digit_to_char(digit: u8) -> (ch: char)
    requires
        digit < 10,
    ensures
        ch == digit_char(digit as int),
{
    ('0' as u8 + digit) as char
}

/// The upper-case character for a digit below sixteen.
pub fn hex_digit_to_char(digit: u8) -> (ch: char)
    requires
        digit < 16,
    ensures
        ch == hex_digit_char(digit as int),
{
    if digit < 10 {
        ('0' as u8 + digit) as char
    } else {
        ('A' as u8 + (digit - 10)) as char
    }
}

/// Appends the decimal numeral of `value`.
pub fn push_decimal(out: &mut String, value: u32)
    ensures
        final(out)@ == old(out)@ + decimal(value as nat),
    decreases value,
{
    if value >= 10 {
        push_decimal(out, value / 10);
    }
    out.push(digit_to_char((value % 10) as u8));
}

/// Appends the decimal numeral of `value`, with its sign where it is negative.
pub fn push_signed_decimal(out: &mut String, value: i32)
    ensures
        final(out)@ == old(out)@ + signed_decimal(value as int),
{
    if value < 0 {
        out.push('-');
        push_decimal(out, (-(value as i64)) as u32);
    } else {
        push_decimal(out, value as u32);
    }
}

/// Appends `value` as eight upper-case hexadecimal digits.
pub fn push_hex8(out: &mut String, value: u32)
    ensures
        final(out)@ == old(out)@ + hex8(value),
{
    out.push(hex_digit_to_char((value / 0x1000_0000 % 16) as u8));
    out.push(hex_digit_to_char((value / 0x0100_0000 % 16) as u8));
    out.push(hex_digit_to_char((value / 0x0010_0000 % 16) as u8));
    out.push(hex_digit_to_char((value / 0x0001_0000 % 16) as u8));
    out.push(hex_digit_to_char((value / 0x1000 % 16) as u8));
    out.push(hex_digit_to_char((value / 0x0100 % 16) as u8));
    out.push(hex_digit_to_char((value / 0x0010 % 16) as u8));
    out.push(hex_digit_to_char((value % 16) as u8));
}

/// Appends `text`, then spaces until `width` characters were appended.
pub fn push_padded(out: &mut String, text: &str, width: usize)
    ensures
        final(out)@ == old(out)@ + padded(text@, width as nat),
{
    out.append(text);
    let mut column: usize = text.unicode_len();
    while column < width
        invariant
            text@.len() <= column,
            column > text@.len() ==> column <= width,
            out@ == old(out)@ + text@ + Seq::new((column - text@.len()) as nat, |k: int| ' '),
        decreases width - column,
    {
        out.push(' ');
        column += 1;
    }
}

} // verus!
