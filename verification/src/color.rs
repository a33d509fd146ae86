//! The packed-channel color representation and its hexadecimal rendering.
//!
//! A [`Color`] carries alpha, red, green and blue channels, eight bits each.
//! `parse_hex` accepts `#RRGGBB` (alpha defaults to fully opaque) and
//! `#AARRGGBB`; `to_hex` always renders the fixed-width lowercase `#rrggbb`
//! form used for the final palette.

use vstd::prelude::*;
use vstd::string::StrSliceExecFns;
use vstd::string::StringExecFns;

use crate::error::Error;

verus! {

/// A color with alpha, red, green and blue channels, immutable once built.
#[derive(Clone, Copy, Debug, PartialEq, Eq, Structural, Hash)]
pub struct Color {
    pub alpha: u8,
    pub red: u8,
    pub green: u8,
    pub blue: u8,
}

/// Whether `c` is an ASCII hexadecimal digit, either case.
pub open spec fn is_hex_digit(c: char) -> bool {
    ('0' <= c && c <= '9') || ('a' <= c && c <= 'f') || ('A' <= c && c <= 'F')
}

/// The numeric value of a hexadecimal digit.
pub open spec fn hex_val(c: char) -> int {
    if '0' <= c && c <= '9' {
        c as int - '0' as int
    } else if 'a' <= c && c <= 'f' {
        c as int - 'a' as int + 10
    } else {
        c as int - 'A' as int + 10
    }
}

/// The lowercase hexadecimal digit for a value below sixteen.
pub open spec fn hex_char(d: int) -> char {
    if d == 0 { '0' } else if d == 1 { '1' } else if d == 2 { '2' }
    else if d == 3 { '3' } else if d == 4 { '4' } else if d == 5 { '5' }
    else if d == 6 { '6' } else if d == 7 { '7' } else if d == 8 { '8' }
    else if d == 9 { '9' } else if d == 10 { 'a' } else if d == 11 { 'b' }
    else if d == 12 { 'c' } else if d == 13 { 'd' } else if d == 14 { 'e' }
    else { 'f' }
}

/// Whether the two characters starting at `i` are hexadecimal digits.
pub open spec fn pair_valid(s: Seq<char>, i: int) -> bool {
    is_hex_digit(s[i]) && is_hex_digit(s[i + 1])
}

/// The byte encoded by the two hexadecimal digits starting at `i`.
pub open spec fn pair_val(s: Seq<char>, i: int) -> int {
    hex_val(s[i]) * 16 + hex_val(s[i + 1])
}

/// What parsing a hexadecimal color string yields: `#RRGGBB` gives a fully
/// opaque color, `#AARRGGBB` carries its own alpha, and every other string
/// is rejected.
pub open spec fn parse_hex_spec(s: Seq<char>) -> Result<Color, Error> {
    if s.len() == 7 && s[0] == '#' && pair_valid(s, 1) && pair_valid(s, 3) && pair_valid(s, 5) {
        Ok(Color {
            alpha: 255,
            red: pair_val(s, 1) as u8,
            green: pair_val(s, 3) as u8,
            blue: pair_val(s, 5) as u8,
        })
    } else if s.len() == 9 && s[0] == '#' && pair_valid(s, 1) && pair_valid(s, 3) && pair_valid(
        s,
        5,
    ) && pair_valid(s, 7) {
        Ok(Color {
            alpha: pair_val(s, 1) as u8,
            red: pair_val(s, 3) as u8,
            green: pair_val(s, 5) as u8,
            blue: pair_val(s, 7) as u8,
        })
    } else {
        Err(Error::InvalidColorFormat)
    }
}

/// The two lowercase hexadecimal digits of a channel value.
pub open spec fn hex_pair_of(v: u8) -> Seq<char> {
    seq![hex_char(v as int / 16), hex_char(v as int % 16)]
}

/// The fixed-width lowercase `#rrggbb` rendering of a color; alpha is not
/// rendered.
pub open spec fn to_hex_spec(c: Color) -> Seq<char> {
    seq!['#'] + hex_pair_of(c.red) + hex_pair_of(c.green) + hex_pair_of(c.blue)
}

/// The numeric value of one hexadecimal digit character, if it is one.
fn nibble(c: char) -> (r: Option<u8>)
    ensures
        r matches Some(v) ==> is_hex_digit(c) && v == hex_val(c) && v < 16,
        r is None ==> !is_hex_digit(c),
{
    if '0' <= c && c <= '9' {
        Some(c as u8 - 48)
    } else if 'a' <= c && c <= 'f' {
        Some(c as u8 - 97 + 10)
    } else if 'A' <= c && c <= 'F' {
        Some(c as u8 - 65 + 10)
    } else {
        None
    }
}

/// The byte encoded by the two hexadecimal digits of `s` starting at `i`,
/// if both are digits.
fn hex_pair_at(s: &str, i: usize) -> (r: Option<u8>)
    requires
        i < 16,
        i + 1 < s@.len(),
    ensures
        r matches Some(v) ==> pair_valid(s@, i as int) && v == pair_val(s@, i as int),
        r is None ==> !pair_valid(s@, i as int),
{
    let c1 = s.get_char(i);
    let c2 = s.get_char(i + 1);
    match (nibble(c1), nibble(c2)) {
        (Some(hi), Some(lo)) => Some(hi * 16 + lo),
        _ => None,
    }
}

impl Color {
    /// The color with the given channels.
    pub fn from_channels(alpha: u8, red: u8, green: u8, blue: u8) -> (r: Color)
        ensures
            r == (Color { alpha, red, green, blue }),
    {
        Color { alpha, red, green, blue }
    }

    /// The fully opaque color with the given channels.
    pub fn opaque(red: u8, green: u8, blue: u8) -> (r: Color)
        ensures
            r == (Color { alpha: 255, red, green, blue }),
    {
        Color { alpha: 255, red, green, blue }
    }
}

/// Parses a `#RRGGBB` or `#AARRGGBB` string into a color; any other shape
/// is an `InvalidColorFormat` error.
pub fn parse_hex(s: &String) -> (r: Result<Color, Error>)
    ensures
        r == parse_hex_spec(s@),
{
    let st: &str = s.as_str();
    let n = st.unicode_len();
    if n != 7 && n != 9 {
        return Err(Error::InvalidColorFormat);
    }
    if st.get_char(0) != '#' {
        return Err(Error::InvalidColorFormat);
    }
    if n == 7 {
        match (hex_pair_at(st, 1), hex_pair_at(st, 3), hex_pair_at(st, 5)) {
            (Some(r), Some(g), Some(b)) => Ok(Color { alpha: 255, red: r, green: g, blue: b }),
            _ => Err(Error::InvalidColorFormat),
        }
    } else {
        match (hex_pair_at(st, 1), hex_pair_at(st, 3), hex_pair_at(st, 5), hex_pair_at(st, 7)) {
            (Some(a), Some(r), Some(g), Some(b)) => Ok(
                Color { alpha: a, red: r, green: g, blue: b },
            ),
            _ => Err(Error::InvalidColorFormat),
        }
    }
}

/// Appends the lowercase hexadecimal digit for a value below sixteen.
fn push_nibble(out: &mut String, d: u8)
    requires
        d < 16,
    ensures
        final(out)@ == old(out)@ + seq![hex_char(d as int)],
{
    match d {
        0 => {
            proof { reveal_strlit("0"); }
            out.append("0");
        }
        1 => {
            proof { reveal_strlit("1"); }
            out.append("1");
        }
        2 => {
            proof { reveal_strlit("2"); }
            out.append("2");
        }
        3 => {
            proof { reveal_strlit("3"); }
            out.append("3");
        }
        4 => {
            proof { reveal_strlit("4"); }
            out.append("4");
        }
        5 => {
            proof { reveal_strlit("5"); }
            out.append("5");
        }
        6 => {
            proof { reveal_strlit("6"); }
            out.append("6");
        }
        7 => {
            proof { reveal_strlit("7"); }
            out.append("7");
        }
        8 => {
            proof { reveal_strlit("8"); }
            out.append("8");
        }
        9 => {
            proof { reveal_strlit("9"); }
            out.append("9");
        }
        10 => {
            proof { reveal_strlit("a"); }
            out.append("a");
        }
        11 => {
            proof { reveal_strlit("b"); }
            out.append("b");
        }
        12 => {
            proof { reveal_strlit("c"); }
            out.append("c");
        }
        13 => {
            proof { reveal_strlit("d"); }
            out.append("d");
        }
        14 => {
            proof { reveal_strlit("e"); }
            out.append("e");
        }
        _ => {
            proof { reveal_strlit("f"); }
            out.append("f");
        }
    }
}

/// Appends both hexadecimal digits of a channel value.
fn push_channel(out: &mut String, v: u8)
    ensures
        final(out)@ == old(out)@ + hex_pair_of(v),
{
    push_nibble(out, v / 16);
    push_nibble(out, v % 16);
    assert(final(out)@ =~= old(out)@ + hex_pair_of(v));
}

/// Renders a color as its fixed-width lowercase `#rrggbb` string.
pub fn to_hex(c: &Color) -> (r: String)
    ensures
        r@ == to_hex_spec(*c),
{
    let mut out = String::from_str("#");
    proof { reveal_strlit("#"); }
    push_channel(&mut out, c.red);
    push_channel(&mut out, c.green);
    push_channel(&mut out, c.blue);
    assert(out@ =~= to_hex_spec(*c));
    out
}

/// Every lowercase digit the renderer emits is a hexadecimal digit whose
/// value is the one rendered.
proof fn lemma_hex_char_val(d: int)
    requires
        0 <= d < 16,
    ensures
        is_hex_digit(hex_char(d)),
        hex_val(hex_char(d)) == d,
{
}

/// Rendering a fully opaque color and parsing the rendering gives the color
/// back exactly.
pub proof fn lemma_hex_round_trip(c: Color)
    requires
        c.alpha == 255,
    ensures
        parse_hex_spec(to_hex_spec(c)) == Ok::<Color, Error>(c),
{
    let s = to_hex_spec(c);
    assert(s.len() == 7);
    assert(s[0] == '#');
    lemma_hex_char_val(c.red as int / 16);
    lemma_hex_char_val(c.red as int % 16);
    lemma_hex_char_val(c.green as int / 16);
    lemma_hex_char_val(c.green as int % 16);
    lemma_hex_char_val(c.blue as int / 16);
    lemma_hex_char_val(c.blue as int % 16);
    assert(s[1] == hex_char(c.red as int / 16));
    assert(s[2] == hex_char(c.red as int % 16));
    assert(s[3] == hex_char(c.green as int / 16));
    assert(s[4] == hex_char(c.green as int % 16));
    assert(s[5] == hex_char(c.blue as int / 16));
    assert(s[6] == hex_char(c.blue as int % 16));
    assert(pair_val(s, 1) == c.red as int);
    assert(pair_val(s, 3) == c.green as int);
    assert(pair_val(s, 5) == c.blue as int);
}

} // verus!
