//! The legacy 16-color game-chat dialect.
//!
//! Parsing accepts, in priority order: `&#RRGGBB` (eight characters),
//! `&x&R&R&G&G&B&B` (fourteen characters), a two-character legacy code
//! behind a section marker or ampersand (`§c`, `&4`), and a bare
//! one-character legacy code.  Formatting offers the section-marker code of
//! the nearest palette entry and the two hex dialects.
use vstd::prelude::*;

verus! {

use crate::color::Color;
use crate::color::ColorError;
use crate::hex::hex_triple;
use crate::hex::spec_from_hex;
use crate::hex::push_hex_pair;

/// The fixed 16-entry palette, in tie-breaking order.
pub open spec fn palette_rgb(i: int) -> (int, int, int)
    recommends
        0 <= i < 16,
{
    if i == 0 {
        (0, 0, 0)
    } else if i == 1 {
        (0, 0, 170)
    } else if i == 2 {
        (0, 170, 0)
    } else if i == 3 {
        (0, 170, 170)
    } else if i == 4 {
        (170, 0, 0)
    } else if i == 5 {
        (170, 0, 170)
    } else if i == 6 {
        (255, 170, 0)
    } else if i == 7 {
        (170, 170, 170)
    } else if i == 8 {
        (85, 85, 85)
    } else if i == 9 {
        (85, 85, 255)
    } else if i == 10 {
        (85, 255, 85)
    } else if i == 11 {
        (85, 255, 255)
    } else if i == 12 {
        (255, 85, 85)
    } else if i == 13 {
        (255, 85, 255)
    } else if i == 14 {
        (255, 255, 85)
    } else {
        (255, 255, 255)
    }
}

/// The lowercase code character of a palette entry.
pub open spec fn palette_char(i: int) -> char
    recommends
        0 <= i < 16,
{
    if i == 0 {
        '0'
    } else if i == 1 {
        '1'
    } else if i == 2 {
        '2'
    } else if i == 3 {
        '3'
    } else if i == 4 {
        '4'
    } else if i == 5 {
        '5'
    } else if i == 6 {
        '6'
    } else if i == 7 {
        '7'
    } else if i == 8 {
        '8'
    } else if i == 9 {
        '9'
    } else if i == 10 {
        'a'
    } else if i == 11 {
        'b'
    } else if i == 12 {
        'c'
    } else if i == 13 {
        'd'
    } else if i == 14 {
        'e'
    } else {
        'f'
    }
}

/// Whether a character selects a palette entry (case-insensitive).
pub open spec fn is_palette_char(c: char) -> bool {
    ('0' as int <= c as int <= '9' as int) || ('a' as int <= c as int <= 'f' as int) || (
    'A' as int <= c as int <= 'F' as int)
}

/// The palette index a character selects.
pub open spec fn palette_index(c: char) -> int
    recommends
        is_palette_char(c),
{
    if '0' as int <= c as int <= '9' as int {
        c as int - '0' as int
    } else if 'a' as int <= c as int <= 'f' as int {
        c as int - 'a' as int + 10
    } else {
        c as int - 'A' as int + 10
    }
}

/// The fully opaque color of one palette entry.
pub open spec fn palette_color(i: int) -> Color
    recommends
        0 <= i < 16,
{
    let p = palette_rgb(i);
    Color { r: p.0 as u8, g: p.1 as u8, b: p.2 as u8, a: 1000 }
}

/// What a legacy code character yields.
pub open spec fn spec_legacy(c: char) -> Result<Color, ColorError> {
    if is_palette_char(c) {
        Ok(palette_color(palette_index(c)))
    } else {
        Err(ColorError::InvalidMinecraftCode)
    }
}

/// The six hex characters hidden at the odd offsets of the fourteen
/// character `&x` dialect.
pub open spec fn unamp_chars(s: Seq<char>) -> Seq<char>
    recommends
        s.len() == 14,
{
    seq![s[3], s[5], s[7], s[9], s[11], s[13]]
}

/// What parsing a game-chat code yields, for every input: the four accepted
/// shapes in priority order, everything else `InvalidMinecraftCode`.  The
/// two hex shapes delegate to hex parsing and report its errors.
pub open spec fn spec_from_minecraft_code(s: Seq<char>) -> Result<Color, ColorError> {
    if s.len() == 8 && s[0] == '&' && s[1] == '#' {
        spec_from_hex(s.skip(2))
    } else if s.len() == 14 && s[0] == '&' && s[1] == 'x' {
        spec_from_hex(unamp_chars(s))
    } else if s.len() == 2 && (s[0] == '§' || s[0] == '&') {
        spec_legacy(s[1])
    } else if s.len() == 1 {
        spec_legacy(s[0])
    } else {
        Err(ColorError::InvalidMinecraftCode)
    }
}

/// The squared Euclidean distance from a color to palette entry `i`,
/// alpha ignored.
pub open spec fn palette_dist2(c: Color, i: int) -> int
    recommends
        0 <= i < 16,
{
    let p = palette_rgb(i);
    (c.r - p.0) * (c.r - p.0) + (c.g - p.1) * (c.g - p.1) + (c.b - p.2) * (c.b - p.2)
}

/// The index of the entry nearest to `c` among the first `n`, earliest
/// entry winning ties.
pub open spec fn nearest_index(c: Color, n: int) -> int
    recommends
        1 <= n <= 16,
    decreases n,
{
    if n <= 1 {
        0
    } else {
        let p = nearest_index(c, n - 1);
        if palette_dist2(c, n - 1) < palette_dist2(c, p) {
            n - 1
        } else {
            p
        }
    }
}

/// The nearest index is a minimizer, and the earliest one.
pub proof fn lemma_nearest_index(c: Color, n: int)
    requires
        1 <= n <= 16,
    ensures
        0 <= nearest_index(c, n) < n,
        forall|j: int|
            0 <= j < n ==> palette_dist2(c, nearest_index(c, n)) <= #[trigger] palette_dist2(c, j),
        forall|j: int|
            0 <= j < nearest_index(c, n) ==> #[trigger] palette_dist2(c, j) > palette_dist2(
                c,
                nearest_index(c, n),
            ),
    decreases n,
{
    if n > 1 {
        lemma_nearest_index(c, n - 1);
    }
}

/// The palette entry of one index, executably.
pub(crate) fn palette_entry(i: u8) -> (p: (u8, u8, u8))
    requires
        i < 16,
    ensures
        (p.0 as int, p.1 as int, p.2 as int) == palette_rgb(i as int),
{
    match i {
        0 => (0, 0, 0),
        1 => (0, 0, 170),
        2 => (0, 170, 0),
        3 => (0, 170, 170),
        4 => (170, 0, 0),
        5 => (170, 0, 170),
        6 => (255, 170, 0),
        7 => (170, 170, 170),
        8 => (85, 85, 85),
        9 => (85, 85, 255),
        10 => (85, 255, 85),
        11 => (85, 255, 255),
        12 => (255, 85, 85),
        13 => (255, 85, 255),
        14 => (255, 255, 85),
        _ => (255, 255, 255),
    }
}

/// The code character of one palette index, executably.
pub(crate) fn palette_char_of(i: u8) -> (c: char)
    requires
        i < 16,
    ensures
        c == palette_char(i as int),
{
    match i {
        0 => '0',
        1 => '1',
        2 => '2',
        3 => '3',
        4 => '4',
        5 => '5',
        6 => '6',
        7 => '7',
        8 => '8',
        9 => '9',
        10 => 'a',
        11 => 'b',
        12 => 'c',
        13 => 'd',
        14 => 'e',
        _ => 'f',
    }
}

/// The color a legacy code character selects, executably.
fn legacy_color(c: char) -> (res: Result<Color, ColorError>)
    ensures
        res == spec_legacy(c),
{
    let u = c as u32;
    let idx: u8 = if 48 <= u && u <= 57 {
        (u - 48) as u8
    } else if 97 <= u && u <= 102 {
        (u - 97 + 10) as u8
    } else if 65 <= u && u <= 70 {
        (u - 65 + 10) as u8
    } else {
        return Err(ColorError::InvalidMinecraftCode);
    };
    let p = palette_entry(idx);
    Ok(Color { r: p.0, g: p.1, b: p.2, a: 1000 })
}

/// The squared distance to palette entry `i`, executably.
fn palette_dist2_of(c: &Color, i: u8) -> (d: u32)
    requires
        i < 16,
    ensures
        d as int == palette_dist2(*c, i as int),
{
    let p = palette_entry(i);
    let dr = c.r as i32 - p.0 as i32;
    let dg = c.g as i32 - p.1 as i32;
    let db = c.b as i32 - p.2 as i32;
    proof {
        assert(0 <= dr * dr <= 65025 && 0 <= dg * dg <= 65025 && 0 <= db * db <= 65025)
            by (nonlinear_arith)
            requires
                -255 <= dr <= 255,
                -255 <= dg <= 255,
                -255 <= db <= 255,
        ;
    }
    (dr * dr + dg * dg + db * db) as u32
}

impl Color {
    /// Parses a game-chat color code such as `§c`, `&4`, `e`, `&#FF5733`
    /// or `&x&F&F&5&7&3&3`, exactly as [`spec_from_minecraft_code`]
    /// describes.
    pub fn from_minecraft_code(code: &str) -> (res: Result<Color, ColorError>)
        ensures
            res == spec_from_minecraft_code(code@),
            res matches Ok(c) ==> c.wf(),
    {
        let n = code.unicode_len();
        if n == 8 && code.get_char(0) == '&' && code.get_char(1) == '#' {
            let tail = code.substring_char(2, 8);
            proof {
                assert(tail@ =~= code@.skip(2));
            }
            Color::from_hex(tail)
        } else if n == 14 && code.get_char(0) == '&' && code.get_char(1) == 'x' {
            let mut digits = String::new();
            digits.push(code.get_char(3));
            digits.push(code.get_char(5));
            digits.push(code.get_char(7));
            digits.push(code.get_char(9));
            digits.push(code.get_char(11));
            digits.push(code.get_char(13));
            proof {
                assert(digits@ =~= unamp_chars(code@));
            }
            Color::from_hex(digits.as_str())
        } else if n == 2 && (code.get_char(0) == '§' || code.get_char(0) == '&') {
            legacy_color(code.get_char(1))
        } else if n == 1 {
            legacy_color(code.get_char(0))
        } else {
            Err(ColorError::InvalidMinecraftCode)
        }
    }

    /// The section-marker code of the palette entry nearest to this color
    /// in squared RGB distance, earliest entry winning ties.
    pub fn to_minecraft_code(&self) -> (res: String)
        ensures
            res@ == seq!['§', palette_char(nearest_index(*self, 16))],
    {
        let mut best: u8 = 0;
        let mut best_d: u32 = palette_dist2_of(self, 0);
        let mut i: u8 = 1;
        while i < 16
            invariant
                1 <= i <= 16,
                best < i,
                best as int == nearest_index(*self, i as int),
                best_d as int == palette_dist2(*self, best as int),
            decreases 16 - i,
        {
            let d = palette_dist2_of(self, i);
            if d < best_d {
                best = i;
                best_d = d;
            }
            i = i + 1;
        }
        let mut out = String::new();
        out.push('§');
        out.push(palette_char_of(best));
        proof {
            assert(out@ =~= seq!['§', palette_char(nearest_index(*self, 16))]);
        }
        out
    }

    /// The `&#RRGGBB` dialect: uppercase digits behind an ampersand.
    pub fn to_minecraft_hex(&self) -> (res: String)
        ensures
            res@ == seq!['&', '#'] + hex_triple(self.r as int, self.g as int, self.b as int),
    {
        let mut out = String::new();
        out.push('&');
        out.push('#');
        push_hex_pair(&mut out, self.r);
        push_hex_pair(&mut out, self.g);
        push_hex_pair(&mut out, self.b);
        proof {
            assert(out@ =~= seq!['&', '#'] + hex_triple(
                self.r as int,
                self.g as int,
                self.b as int,
            ));
        }
        out
    }

    /// The `&x` dialect: each of the six uppercase digits individually
    /// prefixed with an ampersand.
    pub fn to_minecraft_hex_alt(&self) -> (res: String)
        ensures
            res@ == spec_mc_hex_alt(self.r as int, self.g as int, self.b as int),
    {
        let mut out = String::new();
        out.push('&');
        out.push('x');
        push_amp_pair(&mut out, self.r);
        push_amp_pair(&mut out, self.g);
        push_amp_pair(&mut out, self.b);
        proof {
            assert(out@ =~= spec_mc_hex_alt(self.r as int, self.g as int, self.b as int));
        }
        out
    }
}

/// The `&x` dialect of three channels: `&x` then `&` before each digit.
pub open spec fn spec_mc_hex_alt(r: int, g: int, b: int) -> Seq<char> {
    let t = hex_triple(r, g, b);
    seq!['&', 'x', '&', t[0], '&', t[1], '&', t[2], '&', t[3], '&', t[4], '&', t[5]]
}

/// Appends `&`, then the two uppercase digits of `v`, each behind its own
/// ampersand.
fn push_amp_pair(s: &mut String, v: u8)
    ensures
        final(s)@ == old(s)@ + seq![
            '&',
            crate::hex::hex_digit_char(v as int / 16),
            '&',
            crate::hex::hex_digit_char(v as int % 16),
        ],
{
    let hi = crate::hex::hex_char(v / 16);
    let lo = crate::hex::hex_char(v % 16);
    s.push('&');
    s.push(hi);
    s.push('&');
    s.push(lo);
    assert(s@ =~= old(s)@ + seq![
        '&',
        crate::hex::hex_digit_char(v as int / 16),
        '&',
        crate::hex::hex_digit_char(v as int % 16),
    ]);
}

impl Color {
    /// The palette entry black (`0`).
    pub fn mc_black() -> (c: Color)
        ensures
            c == palette_color(0),
    {
        let p = palette_entry(0);
        Color { r: p.0, g: p.1, b: p.2, a: 1000 }
    }

    /// The palette entry dark blue (`1`).
    pub fn mc_dark_blue() -> (c: Color)
        ensures
            c == palette_color(1),
    {
        let p = palette_entry(1);
        Color { r: p.0, g: p.1, b: p.2, a: 1000 }
    }

    /// The palette entry dark green (`2`).
    pub fn mc_dark_green() -> (c: Color)
        ensures
            c == palette_color(2),
    {
        let p = palette_entry(2);
        Color { r: p.0, g: p.1, b: p.2, a: 1000 }
    }

    /// The palette entry dark aqua (`3`).
    pub fn mc_dark_aqua() -> (c: Color)
        ensures
            c == palette_color(3),
    {
        let p = palette_entry(3);
        Color { r: p.0, g: p.1, b: p.2, a: 1000 }
    }

    /// The palette entry dark red (`4`).
    pub fn mc_dark_red() -> (c: Color)
        ensures
            c == palette_color(4),
    {
        let p = palette_entry(4);
        Color { r: p.0, g: p.1, b: p.2, a: 1000 }
    }

    /// The palette entry dark purple (`5`).
    pub fn mc_dark_purple() -> (c: Color)
        ensures
            c == palette_color(5),
    {
        let p = palette_entry(5);
        Color { r: p.0, g: p.1, b: p.2, a: 1000 }
    }

    /// The palette entry gold (`6`).
    pub fn mc_gold() -> (c: Color)
        ensures
            c == palette_color(6),
    {
        let p = palette_entry(6);
        Color { r: p.0, g: p.1, b: p.2, a: 1000 }
    }

    /// The palette entry gray (`7`).
    pub fn mc_gray() -> (c: Color)
        ensures
            c == palette_color(7),
    {
        let p = palette_entry(7);
        Color { r: p.0, g: p.1, b: p.2, a: 1000 }
    }

    /// The palette entry dark gray (`8`).
    pub fn mc_dark_gray() -> (c: Color)
        ensures
            c == palette_color(8),
    {
        let p = palette_entry(8);
        Color { r: p.0, g: p.1, b: p.2, a: 1000 }
    }

    /// The palette entry blue (`9`).
    pub fn mc_blue() -> (c: Color)
        ensures
            c == palette_color(9),
    {
        let p = palette_entry(9);
        Color { r: p.0, g: p.1, b: p.2, a: 1000 }
    }

    /// The palette entry green (`a`).
    pub fn mc_green() -> (c: Color)
        ensures
            c == palette_color(10),
    {
        let p = palette_entry(10);
        Color { r: p.0, g: p.1, b: p.2, a: 1000 }
    }

    /// The palette entry aqua (`b`).
    pub fn mc_aqua() -> (c: Color)
        ensures
            c == palette_color(11),
    {
        let p = palette_entry(11);
        Color { r: p.0, g: p.1, b: p.2, a: 1000 }
    }

    /// The palette entry red (`c`).
    pub fn mc_red() -> (c: Color)
        ensures
            c == palette_color(12),
    {
        let p = palette_entry(12);
        Color { r: p.0, g: p.1, b: p.2, a: 1000 }
    }

    /// The palette entry light purple (`d`).
    pub fn mc_light_purple() -> (c: Color)
        ensures
            c == palette_color(13),
    {
        let p = palette_entry(13);
        Color { r: p.0, g: p.1, b: p.2, a: 1000 }
    }

    /// The palette entry yellow (`e`).
    pub fn mc_yellow() -> (c: Color)
        ensures
            c == palette_color(14),
    {
        let p = palette_entry(14);
        Color { r: p.0, g: p.1, b: p.2, a: 1000 }
    }

    /// The palette entry white (`f`).
    pub fn mc_white() -> (c: Color)
        ensures
            c == palette_color(15),
    {
        let p = palette_entry(15);
        Color { r: p.0, g: p.1, b: p.2, a: 1000 }
    }

}

} // verus!
