//! Values of the command line arguments.
use vstd::prelude::*;

use crate::value_colormap::Rgba;

verus! {

/// Whether `c` is a hexadecimal digit.
pub open spec fn is_hex_digit(c: char) -> bool {
    let u = c as u32;
    (0x30 <= u <= 0x39) || (0x41 <= u <= 0x46) || (0x61 <= u <= 0x66)
}

/// The value of the hexadecimal digit `c`.
pub open spec fn hex_value(c: char) -> int {
    let u = c as u32;
    if u <= 0x39 {
        u - 0x30
    } else if u <= 0x46 {
        u - 0x41 + 10
    } else {
        u - 0x61 + 10
    }
}

/// The value of the hexadecimal digits `s`.
pub open spec fn hex_digits_value(s: Seq<char>) -> int
    decreases s.len(),
{
    if s.len() == 0 {
        0
    } else {
        16 * hex_digits_value(s.drop_last()) + hex_value(s.last())
    }
}

/// What Rust's `from_str_radix(s, 16)` gives for an unsigned integer type that holds the
/// value: an optional `+` followed by at least one hexadecimal digit is read, anything else
/// is refused.
pub open spec fn radix16_value(s: Seq<char>) -> Option<int> {
    let digits = if s.len() > 0 && s[0] == '+' {
        s.drop_first()
    } else {
        s
    };
    if digits.len() > 0 && forall|i: int| 0 <= i < digits.len() ==> is_hex_digit(#[trigger] digits[i]) {
        Some(hex_digits_value(digits))
    } else {
        None
    }
}

/// ecolor's premultiplication of a color channel `v` by the alpha `a`, `v * a / 255` rounded.
pub open spec fn mul_frac_round(v: int, a: int) -> int {
    let p = v * a + 128;
    (p + p / 256) / 256
}

/// The premultiplied RGBA bytes of the color with the unmultiplied channels `r`, `g`, `b`
/// and alpha `a` (`Color32::from_rgba_unmultiplied`).
pub open spec fn premultiplied(r: int, g: int, b: int, a: int) -> [u8; 4] {
    if a == 0 {
        [0u8, 0u8, 0u8, 0u8]
    } else if a == 255 {
        [r as u8, g as u8, b as u8, 255u8]
    } else {
        [mul_frac_round(r, a) as u8, mul_frac_round(g, a) as u8, mul_frac_round(b, a) as u8, a as u8]
    }
}

/// The premultiplied RGBA bytes of the color that `ecolor::Color32::from_hex` parses from
/// `s`, `None` where it refuses `s`: `#` followed by 3, 4, 6 or 8 characters that Rust reads
/// as a hexadecimal number; 3 and 4 digits stand for channels whose digit is doubled
/// (`#abc` is `#aabbcc`), 6 and 8 digits for two digits per channel; the 4 and 8 digit
/// forms carry alpha, by which the color is premultiplied.
pub open spec fn hex_color(s: Seq<char>) -> Option<[u8; 4]> {
    if s.len() == 0 || s[0] != '#' {
        None
    } else {
        let rest = s.drop_first();
        match radix16_value(rest) {
            None => None,
            Some(v) => if rest.len() == 3 {
                Some([(17 * (v / 256)) as u8, (17 * (v % 256 / 16)) as u8, (17 * (v % 16)) as u8, 255u8])
            } else if rest.len() == 4 {
                Some(premultiplied(17 * (v / 4096), 17 * (v / 256 % 16), 17 * (v % 256 / 16), 17 * (v % 16)))
            } else if rest.len() == 6 {
                Some([(v / 65536 % 256) as u8, (v / 256 % 256) as u8, (v % 256) as u8, 255u8])
            } else if rest.len() == 8 {
                Some(premultiplied(v / 16777216, v / 65536 % 256, v / 256 % 256, v % 256))
            } else {
                None
            },
        }
    }
}

/// Whether `s` is `#` and `n` hexadecimal digits.
pub open spec fn is_hex_string(s: Seq<char>, n: int) -> bool {
    &&& s.len() == n + 1
    &&& s[0] == '#'
    &&& forall|i: int| 1 <= i < s.len() ==> is_hex_digit(#[trigger] s[i])
}

/// Whether `s` is a CSS hex color: `#` and 3, 4, 6 or 8 hexadecimal digits.
pub open spec fn is_css_hex_color(s: Seq<char>) -> bool {
    is_hex_string(s, 3) || is_hex_string(s, 4) || is_hex_string(s, 6) || is_hex_string(s, 8)
}

/// `ecolor::Color32::from_hex`, egui's parser of CSS hex colors, with the parsed color
/// handed out as its premultiplied RGBA bytes (`Color32::to_array`). Claimed, as its source
/// (`HexColor::from_str_without_hash`, `Color32::from_rgba_unmultiplied`, `mul_frac_round`)
/// and the documentation of `from_str_radix` show: the result is `hex_color` of the string.
/// A refused string gives `None`; which of ecolor's reasons refused it is not handed out,
/// since the library reports every refusal alike.
#[verifier::external_body]
fn color_from_hex(s: &str) -> (r: Option<[u8; 4]>)
    ensures
        r == hex_color(s@),
{
    match ecolor::Color32::from_hex(s) {
        Ok(c) => Some(c.to_array()),
        Err(_) => None,
    }
}

/// A color argument that is not a hex color.
#[derive(Debug, Clone, Copy, PartialEq, Eq, Structural)]
pub struct InvalidHexColor;

/// The color of a parsed hex string, from its premultiplied RGBA bytes, or the error for a
/// refused string (`None`).
pub fn color_of_parsed(parsed: Option<[u8; 4]>) -> (r: Result<Rgba, InvalidHexColor>)
    ensures
        parsed matches Some(c) ==> r matches Ok(d) && d == Rgba(c),
        parsed is None ==> r is Err,
{
    match parsed {
        Some(c) => Ok(Rgba(c)),
        None => Err(InvalidHexColor),
    }
}

/// Parses a hex color argument such as `#FF0012` (CSS hex colors: `#` and 3, 4, 6 or 8
/// hexadecimal digits) into the RGBA bytes of egui's color, premultiplied by its alpha,
/// as `hex_color` says.
pub fn parse_hex_color(hex_str: &str) -> (r: Result<Rgba, InvalidHexColor>)
    ensures
        r matches Ok(c) ==> hex_color(hex_str@) == Some(c.0),
        r is Err <==> hex_color(hex_str@) is None,
        !(hex_str@.len() > 0 && hex_str@[0] == '#') ==> r is Err,
        is_css_hex_color(hex_str@) ==> r is Ok,
{
    proof {
        if is_css_hex_color(hex_str@) {
            let rest = hex_str@.drop_first();
            assert forall|i: int| 0 <= i < rest.len() implies is_hex_digit(#[trigger] rest[i]) by {
                assert(rest[i] == hex_str@[i + 1]);
            }
            assert(rest[0] != '+');
        }
    }
    let parsed = color_from_hex(hex_str);
    color_of_parsed(parsed)
}

} // verus!
