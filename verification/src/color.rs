//! RGBA colors and parsing of `#RRGGBB` hex color strings.

use vstd::prelude::*;

verus! {

/// An RGBA color with 8-bit channels.
#[derive(Clone, Copy, Debug, PartialEq, Eq, Structural)]
pub struct Color {
    pub r: u8,
    pub g: u8,
    pub b: u8,
    pub a: u8,
}

impl Color {
    /// The four channels as a tuple, the form pixel-level specs speak of.
    pub open spec fn rgba(self) -> (u8, u8, u8, u8) {
        (self.r, self.g, self.b, self.a)
    }
}

/// Opaque white, the default label text color.
pub open spec fn spec_white() -> Color {
    Color { r: 255, g: 255, b: 255, a: 255 }
}

/// The fixed fill color of the banner strip.
pub open spec fn spec_banner_fill() -> Color {
    Color { r: 241, g: 162, b: 130, a: 255 }
}

/// Opaque white, the default label text color.
pub fn white() -> (c: Color)
    ensures
        c == spec_white(),
{
    Color { r: 255, g: 255, b: 255, a: 255 }
}

/// The fixed fill color of the banner strip.
pub fn banner_fill() -> (c: Color)
    ensures
        c == spec_banner_fill(),
{
    Color { r: 241, g: 162, b: 130, a: 255 }
}

/// Is `c` an ASCII hexadecimal digit?
pub open spec fn is_hex_digit(c: char) -> bool {
    ('0' <= c && c <= '9') || ('a' <= c && c <= 'f') || ('A' <= c && c <= 'F')
}

/// The value of a hexadecimal digit.
pub open spec fn hex_val(c: char) -> int {
    if '0' <= c && c <= '9' {
        c as int - '0' as int
    } else if 'a' <= c && c <= 'f' {
        c as int - 'a' as int + 10
    } else {
        c as int - 'A' as int + 10
    }
}

/// The byte written as the two hexadecimal digits `hi`, `lo`.
pub open spec fn hex_byte(hi: char, lo: char) -> u8 {
    (hex_val(hi) * 16 + hex_val(lo)) as u8
}

/// The color denoted by a `#RRGGBB` string: exactly one `#` followed by six
/// hexadecimal digits, with the alpha channel fixed at 255.  Anything else
/// denotes no color.
pub open spec fn spec_hex_color(s: Seq<char>) -> Option<Color> {
    if s.len() == 7 && s[0] == '#' && is_hex_digit(s[1]) && is_hex_digit(s[2]) && is_hex_digit(
        s[3],
    ) && is_hex_digit(s[4]) && is_hex_digit(s[5]) && is_hex_digit(s[6]) {
        Some(
            Color {
                r: hex_byte(s[1], s[2]),
                g: hex_byte(s[3], s[4]),
                b: hex_byte(s[5], s[6]),
                a: 255,
            },
        )
    } else {
        None
    }
}

/// The value of `c` as a hexadecimal digit, or `None` if it is not one.
fn hex_digit_val(c: char) -> (r: Option<u8>)
    ensures
        is_hex_digit(c) ==> (r matches Some(v) && v == hex_val(c) && v < 16),
        !is_hex_digit(c) ==> r is None,
{
    if '0' <= c && c <= '9' {
        Some((c as u32 - '0' as u32) as u8)
    } else if 'a' <= c && c <= 'f' {
        Some((c as u32 - 'a' as u32 + 10) as u8)
    } else if 'A' <= c && c <= 'F' {
        Some((c as u32 - 'A' as u32 + 10) as u8)
    } else {
        None
    }
}

/// Parse a `#RRGGBB` hex color string, as [`spec_hex_color`] describes.
pub fn parse_hex_color(s: &str) -> (r: Option<Color>)
    ensures
        r == spec_hex_color(s@),
{
    let n = s.unicode_len();
    if n != 7 {
        return None;
    }
    if s.get_char(0) != '#' {
        return None;
    }
    let d1 = hex_digit_val(s.get_char(1));
    let d2 = hex_digit_val(s.get_char(2));
    let d3 = hex_digit_val(s.get_char(3));
    let d4 = hex_digit_val(s.get_char(4));
    let d5 = hex_digit_val(s.get_char(5));
    let d6 = hex_digit_val(s.get_char(6));
    match (d1, d2, d3, d4, d5, d6) {
        (Some(v1), Some(v2), Some(v3), Some(v4), Some(v5), Some(v6)) => Some(
            Color { r: v1 * 16 + v2, g: v3 * 16 + v4, b: v5 * 16 + v6, a: 255 },
        ),
        _ => None,
    }
}

} // verus!
