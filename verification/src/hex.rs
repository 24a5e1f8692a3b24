//! Hexadecimal notation: parsing `#RGB`, `#RRGGBB` and `#RRGGBBAA` strings
//! and producing the uppercase `#RRGGBB` / `#RRGGBBAA` forms.
use vstd::prelude::*;

verus! {

use crate::color::Color;
use crate::color::ColorError;
use crate::rounding::lemma_rhu_le;
use crate::rounding::round_half_up;
use crate::rounding::div_round_half_up;

/// One hexadecimal digit, either case.
pub open spec fn is_hex_digit(c: char) -> bool {
    ('0' as int <= c as int <= '9' as int) || ('a' as int <= c as int <= 'f' as int) || (
    'A' as int <= c as int <= 'F' as int)
}

/// The value of a hexadecimal digit.
pub open spec fn hex_digit_val(c: char) -> int
    recommends
        is_hex_digit(c),
{
    if '0' as int <= c as int <= '9' as int {
        c as int - '0' as int
    } else if 'a' as int <= c as int <= 'f' as int {
        c as int - 'a' as int + 10
    } else {
        c as int - 'A' as int + 10
    }
}

/// The uppercase character for a value below sixteen.
pub open spec fn hex_digit_char(d: int) -> char
    recommends
        0 <= d < 16,
{
    if d == 0 {
        '0'
    } else if d == 1 {
        '1'
    } else if d == 2 {
        '2'
    } else if d == 3 {
        '3'
    } else if d == 4 {
        '4'
    } else if d == 5 {
        '5'
    } else if d == 6 {
        '6'
    } else if d == 7 {
        '7'
    } else if d == 8 {
        '8'
    } else if d == 9 {
        '9'
    } else if d == 10 {
        'A'
    } else if d == 11 {
        'B'
    } else if d == 12 {
        'C'
    } else if d == 13 {
        'D'
    } else if d == 14 {
        'E'
    } else {
        'F'
    }
}

/// Two zero-padded uppercase digits for a byte value.
pub open spec fn hex_pair(v: int) -> Seq<char>
    recommends
        0 <= v < 256,
{
    seq![hex_digit_char(v / 16), hex_digit_char(v % 16)]
}

/// The six uppercase digits of an RGB triple.
pub open spec fn hex_triple(r: int, g: int, b: int) -> Seq<char> {
    hex_pair(r) + hex_pair(g) + hex_pair(b)
}

/// The full hex string of a color: `#` followed by six uppercase digits.
pub open spec fn spec_to_hex(c: Color) -> Seq<char> {
    seq!['#'] + hex_triple(c.r as int, c.g as int, c.b as int)
}

/// The alpha byte appended by the alpha variant: opacity in thousandths
/// rescaled to `0..=255`, rounded half up.
pub open spec fn alpha_byte(a: int) -> int {
    round_half_up(255 * a, 1000)
}

/// The input with one optional leading `#` removed.
pub open spec fn strip_hash(s: Seq<char>) -> Seq<char> {
    if s.len() > 0 && s[0] == '#' {
        s.skip(1)
    } else {
        s
    }
}

/// Every character is a hexadecimal digit.
pub open spec fn all_hex(s: Seq<char>) -> bool {
    forall|i: int| 0 <= i < s.len() ==> is_hex_digit(#[trigger] s[i])
}

/// The value of the digit pair starting at position `i`.
pub open spec fn pair_val(s: Seq<char>, i: int) -> int
    recommends
        0 <= i && i + 2 <= s.len(),
{
    16 * hex_digit_val(s[i]) + hex_digit_val(s[i + 1])
}

/// What parsing a hex string yields, for every input.
///
/// After removing one optional leading `#`, a length of three duplicates
/// each nibble, six is `RRGGBB`, eight is `RRGGBBAA` with the alpha byte
/// rescaled to thousandths; any other length is `InvalidHexLength`, and a
/// non-digit within an accepted length is `InvalidHexFormat`.
pub open spec fn spec_from_hex(s0: Seq<char>) -> Result<Color, ColorError> {
    let s = strip_hash(s0);
    if s.len() == 3 {
        if all_hex(s) {
            Ok(
                Color {
                    r: (17 * hex_digit_val(s[0])) as u8,
                    g: (17 * hex_digit_val(s[1])) as u8,
                    b: (17 * hex_digit_val(s[2])) as u8,
                    a: 1000,
                },
            )
        } else {
            Err(ColorError::InvalidHexFormat)
        }
    } else if s.len() == 6 {
        if all_hex(s) {
            Ok(
                Color {
                    r: pair_val(s, 0) as u8,
                    g: pair_val(s, 2) as u8,
                    b: pair_val(s, 4) as u8,
                    a: 1000,
                },
            )
        } else {
            Err(ColorError::InvalidHexFormat)
        }
    } else if s.len() == 8 {
        if all_hex(s) {
            Ok(
                Color {
                    r: pair_val(s, 0) as u8,
                    g: pair_val(s, 2) as u8,
                    b: pair_val(s, 4) as u8,
                    a: round_half_up(1000 * pair_val(s, 6), 255) as u16,
                },
            )
        } else {
            Err(ColorError::InvalidHexFormat)
        }
    } else {
        Err(ColorError::InvalidHexLength)
    }
}

/// Digits produced by [`hex_digit_char`] decode back to their value.
pub proof fn lemma_hex_digit_round_trip(d: int)
    requires
        0 <= d < 16,
    ensures
        is_hex_digit(hex_digit_char(d)),
        hex_digit_val(hex_digit_char(d)) == d,
{
}

/// The value of a hexadecimal digit, executably.
pub(crate) fn hex_val(c: char) -> (v: Option<u8>)
    ensures
        v == (if is_hex_digit(c) {
            Some(hex_digit_val(c) as u8)
        } else {
            None::<u8>
        }),
        is_hex_digit(c) ==> 0 <= hex_digit_val(c) < 16,
{
    let u = c as u32;
    if 48 <= u && u <= 57 {
        Some((u - 48) as u8)
    } else if 97 <= u && u <= 102 {
        Some((u - 97 + 10) as u8)
    } else if 65 <= u && u <= 70 {
        Some((u - 65 + 10) as u8)
    } else {
        None
    }
}

/// The uppercase character of a value below sixteen, executably.
pub(crate) fn hex_char(d: u8) -> (c: char)
    requires
        d < 16,
    ensures
        c == hex_digit_char(d as int),
{
    match d {
        0 => '0',
        1 => '1',
        2 => '2',
        3 => '3',
        4 => '4',
        5 => '5',
        6 => '6',
        7 => '7',
        8 => '8',
        9 => '9',
        10 => 'A',
        11 => 'B',
        12 => 'C',
        13 => 'D',
        14 => 'E',
        _ => 'F',
    }
}

/// Appends the two zero-padded uppercase digits of `v`.
pub(crate) fn push_hex_pair(s: &mut String, v: u8)
    ensures
        final(s)@ == old(s)@ + hex_pair(v as int),
{
    let hi = hex_char(v / 16);
    let lo = hex_char(v % 16);
    s.push(hi);
    s.push(lo);
    assert(s@ =~= old(s)@ + hex_pair(v as int));
}

impl Color {
    /// Parses a hex string such as `#FF5733`, `FF5733`, `#F53` or
    /// `#FF5733CC`, exactly as [`spec_from_hex`] describes.
    pub fn from_hex(hex: &str) -> (res: Result<Color, ColorError>)
        ensures
            res == spec_from_hex(hex@),
            res matches Ok(c) ==> c.wf(),
    {
        let n = hex.unicode_len();
        let off: usize = if n > 0 && hex.get_char(0) == '#' {
            1
        } else {
            0
        };
        let ghost s = strip_hash(hex@);
        proof {
            assert(s =~= hex@.skip(off as int));
        }
        let m = n - off;
        if m == 3 {
            let v0 = match hex_val(hex.get_char(off)) {
                Some(v) => v,
                None => {
                    return Err(ColorError::InvalidHexFormat);
                },
            };
            let v1 = match hex_val(hex.get_char(off + 1)) {
                Some(v) => v,
                None => {
                    return Err(ColorError::InvalidHexFormat);
                },
            };
            let v2 = match hex_val(hex.get_char(off + 2)) {
                Some(v) => v,
                None => {
                    return Err(ColorError::InvalidHexFormat);
                },
            };
            assert(all_hex(s));
            Ok(Color { r: 17 * v0, g: 17 * v1, b: 17 * v2, a: 1000 })
        } else if m == 6 {
            let v0 = match hex_val(hex.get_char(off)) {
                Some(v) => v,
                None => {
                    return Err(ColorError::InvalidHexFormat);
                },
            };
            let v1 = match hex_val(hex.get_char(off + 1)) {
                Some(v) => v,
                None => {
                    return Err(ColorError::InvalidHexFormat);
                },
            };
            let v2 = match hex_val(hex.get_char(off + 2)) {
                Some(v) => v,
                None => {
                    return Err(ColorError::InvalidHexFormat);
                },
            };
            let v3 = match hex_val(hex.get_char(off + 3)) {
                Some(v) => v,
                None => {
                    return Err(ColorError::InvalidHexFormat);
                },
            };
            let v4 = match hex_val(hex.get_char(off + 4)) {
                Some(v) => v,
                None => {
                    return Err(ColorError::InvalidHexFormat);
                },
            };
            let v5 = match hex_val(hex.get_char(off + 5)) {
                Some(v) => v,
                None => {
                    return Err(ColorError::InvalidHexFormat);
                },
            };
            assert(all_hex(s));
            Ok(Color { r: 16 * v0 + v1, g: 16 * v2 + v3, b: 16 * v4 + v5, a: 1000 })
        } else if m == 8 {
            let v0 = match hex_val(hex.get_char(off)) {
                Some(v) => v,
                None => {
                    return Err(ColorError::InvalidHexFormat);
                },
            };
            let v1 = match hex_val(hex.get_char(off + 1)) {
                Some(v) => v,
                None => {
                    return Err(ColorError::InvalidHexFormat);
                },
            };
            let v2 = match hex_val(hex.get_char(off + 2)) {
                Some(v) => v,
                None => {
                    return Err(ColorError::InvalidHexFormat);
                },
            };
            let v3 = match hex_val(hex.get_char(off + 3)) {
                Some(v) => v,
                None => {
                    return Err(ColorError::InvalidHexFormat);
                },
            };
            let v4 = match hex_val(hex.get_char(off + 4)) {
                Some(v) => v,
                None => {
                    return Err(ColorError::InvalidHexFormat);
                },
            };
            let v5 = match hex_val(hex.get_char(off + 5)) {
                Some(v) => v,
                None => {
                    return Err(ColorError::InvalidHexFormat);
                },
            };
            let v6 = match hex_val(hex.get_char(off + 6)) {
                Some(v) => v,
                None => {
                    return Err(ColorError::InvalidHexFormat);
                },
            };
            let v7 = match hex_val(hex.get_char(off + 7)) {
                Some(v) => v,
                None => {
                    return Err(ColorError::InvalidHexFormat);
                },
            };
            assert(all_hex(s));
            let ab: u64 = 16 * (v6 as u64) + (v7 as u64);
            proof {
                lemma_rhu_le(1000 * ab as int, 255, 1000);
            }
            let al = div_round_half_up(1000 * ab, 255);
            Ok(Color { r: 16 * v0 + v1, g: 16 * v2 + v3, b: 16 * v4 + v5, a: al as u16 })
        } else {
            Err(ColorError::InvalidHexLength)
        }
    }

    /// The uppercase `#RRGGBB` string of the stored channels.
    pub fn to_hex(&self) -> (res: String)
        ensures
            res@ == spec_to_hex(*self),
    {
        let mut out = String::new();
        out.push('#');
        push_hex_pair(&mut out, self.r);
        push_hex_pair(&mut out, self.g);
        push_hex_pair(&mut out, self.b);
        proof {
            assert(out@ =~= spec_to_hex(*self));
        }
        out
    }

    /// The uppercase `#RRGGBBAA` string: the hex string with the rescaled
    /// alpha byte appended.
    pub fn to_hex_alpha(&self) -> (res: String)
        requires
            self.wf(),
        ensures
            res@ == spec_to_hex(*self) + hex_pair(alpha_byte(self.a as int)),
    {
        let mut out = self.to_hex();
        proof {
            lemma_rhu_le(255 * self.a as int, 1000, 255);
        }
        let ab = div_round_half_up(255 * (self.a as u64), 1000);
        push_hex_pair(&mut out, ab as u8);
        out
    }
}

} // verus!
