//! Color codec: parsing a six-hex-digit string into RGB channel intensities.
//!
//! The accepted form is exactly six hexadecimal digits, case-insensitive,
//! with no leading marker: a `#` prefix is rejected.

use vstd::prelude::*;

verus! {

/// One color for an RGB LED: three 8-bit channel intensities.
#[derive(Clone, Copy, Debug, PartialEq, Eq, Structural)]
pub struct Color {
    pub red: u8,
    pub green: u8,
    pub blue: u8,
}

/// A hexadecimal digit: `0-9`, `a-f` or `A-F`.
pub open spec fn is_hex_digit(c: char) -> bool {
    ('0' as int <= c as int && c as int <= '9' as int)
    || ('a' as int <= c as int && c as int <= 'f' as int)
    || ('A' as int <= c as int && c as int <= 'F' as int)
}

/// The numeric value of a hexadecimal digit.
pub open spec fn hex_digit_value(c: char) -> int {
    if '0' as int <= c as int && c as int <= '9' as int {
        c as int - '0' as int
    } else if 'a' as int <= c as int && c as int <= 'f' as int {
        c as int - 'a' as int + 10
    } else {
        c as int - 'A' as int + 10
    }
}

/// A color string in the accepted form: exactly six hexadecimal digits.
pub open spec fn valid_hex_color(s: Seq<char>) -> bool {
    s.len() == 6 && forall|i: int| 0 <= i < 6 ==> is_hex_digit(#[trigger] s[i])
}

/// The value of channel `k` (0 = red, 1 = green, 2 = blue) of a color
/// string: its two digits read as one base-16 number.
pub open spec fn channel_value(s: Seq<char>, k: int) -> int {
    16 * hex_digit_value(s[2 * k]) + hex_digit_value(s[2 * k + 1])
}

/// The numeric value of one hexadecimal digit character, or `None` if the
/// character is not a hexadecimal digit.
fn hex_digit(c: char) -> (r: Option<u8>)
    ensures
        match r {
            Some(v) => is_hex_digit(c) && v == hex_digit_value(c),
            None => !is_hex_digit(c),
        },
{
    let u = c as u32;
    if u >= '0' as u32 && u <= '9' as u32 {
        Some((u - '0' as u32) as u8)
    } else if u >= 'a' as u32 && u <= 'f' as u32 {
        Some((u - 'a' as u32 + 10) as u8)
    } else if u >= 'A' as u32 && u <= 'F' as u32 {
        Some((u - 'A' as u32 + 10) as u8)
    } else {
        None
    }
}

/// The value of the two-digit group `hi` `lo`, or `None` if either
/// character is not a hexadecimal digit.
fn hex_pair(hi: char, lo: char) -> (r: Option<u8>)
    ensures
        match r {
            Some(v) => is_hex_digit(hi) && is_hex_digit(lo)
                && v == 16 * hex_digit_value(hi) + hex_digit_value(lo),
            None => !(is_hex_digit(hi) && is_hex_digit(lo)),
        },
{
    match (hex_digit(hi), hex_digit(lo)) {
        (Some(h), Some(l)) => Some(16 * h + l),
        _ => None,
    }
}

/// The lowercase hexadecimal digit character for a value below sixteen.
pub open spec fn hex_digit_char(d: int) -> char {
    if d == 0 {
        '0'
    } else if d == 1 {
        '1'
    } else if d == 2 {
        '2'
    } else if d == 3 {
        '3'
    } else if d == 4 {
        '4'
    } else if d == 5 {
        '5'
    } else if d == 6 {
        '6'
    } else if d == 7 {
        '7'
    } else if d == 8 {
        '8'
    } else if d == 9 {
        '9'
    } else if d == 10 {
        'a'
    } else if d == 11 {
        'b'
    } else if d == 12 {
        'c'
    } else if d == 13 {
        'd'
    } else if d == 14 {
        'e'
    } else {
        'f'
    }
}

/// The canonical rendering of a color: each channel as two lowercase
/// hexadecimal digits, red first.
pub open spec fn color_hex(c: Color) -> Seq<char> {
    seq![
        hex_digit_char(c.red as int / 16),
        hex_digit_char(c.red as int % 16),
        hex_digit_char(c.green as int / 16),
        hex_digit_char(c.green as int % 16),
        hex_digit_char(c.blue as int / 16),
        hex_digit_char(c.blue as int % 16),
    ]
}

proof fn lemma_hex_digit_value_bounds(c: char)
    requires
        is_hex_digit(c),
    ensures
        0 <= hex_digit_value(c) < 16,
{
}

proof fn lemma_hex_digit_char_value(d: int)
    requires
        0 <= d < 16,
    ensures
        is_hex_digit(hex_digit_char(d)),
        hex_digit_value(hex_digit_char(d)) == d,
{
}

/// Decoding recovers what encoding wrote: the canonical rendering of
/// any color is in the accepted form, and its three channel values are
/// the color's own.
pub proof fn lemma_hex_round_trip(c: Color)
    ensures
        valid_hex_color(color_hex(c)),
        channel_value(color_hex(c), 0) == c.red,
        channel_value(color_hex(c), 1) == c.green,
        channel_value(color_hex(c), 2) == c.blue,
{
    let s = color_hex(c);
    lemma_hex_digit_char_value(c.red as int / 16);
    lemma_hex_digit_char_value(c.red as int % 16);
    lemma_hex_digit_char_value(c.green as int / 16);
    lemma_hex_digit_char_value(c.green as int % 16);
    lemma_hex_digit_char_value(c.blue as int / 16);
    lemma_hex_digit_char_value(c.blue as int % 16);
    assert(forall|i: int| 0 <= i < 6 ==> is_hex_digit(#[trigger] s[i]));
}

/// Encoding recovers what decoding read, up to digit case: re-encoding
/// the three channel values of any accepted color string gives the
/// string back with each digit in its canonical lowercase form.
pub proof fn lemma_hex_canonical(s: Seq<char>)
    requires
        valid_hex_color(s),
    ensures
        color_hex(
            Color {
                red: channel_value(s, 0) as u8,
                green: channel_value(s, 1) as u8,
                blue: channel_value(s, 2) as u8,
            },
        ) == Seq::new(6, |i: int| hex_digit_char(hex_digit_value(s[i]))),
{
    let c = Color {
        red: channel_value(s, 0) as u8,
        green: channel_value(s, 1) as u8,
        blue: channel_value(s, 2) as u8,
    };
    assert forall|i: int| 0 <= i < 6 implies 0 <= hex_digit_value(#[trigger] s[i]) < 16 by {
        lemma_hex_digit_value_bounds(s[i]);
    }
    assert(c.red as int / 16 == hex_digit_value(s[0]) && c.red as int % 16 == hex_digit_value(
        s[1],
    )) by {
        assert(c.red == 16 * hex_digit_value(s[0]) + hex_digit_value(s[1]));
    }
    assert(c.green as int / 16 == hex_digit_value(s[2]) && c.green as int % 16 == hex_digit_value(
        s[3],
    )) by {
        assert(c.green == 16 * hex_digit_value(s[2]) + hex_digit_value(s[3]));
    }
    assert(c.blue as int / 16 == hex_digit_value(s[4]) && c.blue as int % 16 == hex_digit_value(
        s[5],
    )) by {
        assert(c.blue == 16 * hex_digit_value(s[4]) + hex_digit_value(s[5]));
    }
    assert(color_hex(c) =~= Seq::new(6, |i: int| hex_digit_char(hex_digit_value(s[i]))));
}

/// Parses a six-hex-digit color string into its three channel values.
///
/// Succeeds exactly on the accepted form — six hexadecimal digits of
/// either case, no leading marker — and yields nothing on any other
/// input: no clamping, no best-effort recovery.
pub fn parse_hex_color(color: &str) -> (r: Option<Color>)
    ensures
        match r {
            Some(c) => valid_hex_color(color@)
                && c.red == channel_value(color@, 0)
                && c.green == channel_value(color@, 1)
                && c.blue == channel_value(color@, 2),
            None => !valid_hex_color(color@),
        },
{
    if color.unicode_len() != 6 {
        return None;
    }
    let c0 = color.get_char(0);
    let c1 = color.get_char(1);
    let c2 = color.get_char(2);
    let c3 = color.get_char(3);
    let c4 = color.get_char(4);
    let c5 = color.get_char(5);
    match (hex_pair(c0, c1), hex_pair(c2, c3), hex_pair(c4, c5)) {
        (Some(red), Some(green), Some(blue)) => Some(Color { red, green, blue }),
        _ => None,
    }
}

} // verus!
