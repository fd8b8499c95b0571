//! The integer part of reading `#RRGGBB` and `#RRGGBBAA` colour codes.
//!
//! A colour code is read from the bytes of its text. Leading `#` signs are
//! skipped; the next six bytes give red, green and blue as two hexadecimal
//! digits each, and when exactly eight bytes follow the `#` signs the last
//! two give the alpha channel. A pair that is not a hexadecimal number reads
//! as 0 (255 for alpha); a missing alpha pair reads as 255.

use vstd::prelude::*;

verus! {

/// The four channels of a colour, each from 0 to 255.
#[derive(Debug, Clone, Copy, PartialEq, Eq, Structural)]
pub struct HexRgba {
    pub r: u8,
    pub g: u8,
    pub b: u8,
    pub a: u8,
}

/// The value of one hexadecimal digit, in either case.
pub open spec fn hex_digit_value(c: u8) -> Option<u8> {
    if 48 <= c && c <= 57 {
        Some((c - 48) as u8)
    } else if 97 <= c && c <= 102 {
        Some((c - 87) as u8)
    } else if 65 <= c && c <= 70 {
        Some((c - 55) as u8)
    } else {
        None
    }
}

/// The number that two bytes spell in base 16, read as an unsigned
/// integer: a leading `+` sign is allowed before a single digit.
pub open spec fn hex_pair_value(c0: u8, c1: u8) -> Option<u8> {
    if c0 == 43 {
        hex_digit_value(c1)
    } else {
        match (hex_digit_value(c0), hex_digit_value(c1)) {
            (Some(hi), Some(lo)) => Some((hi * 16 + lo) as u8),
            _ => None,
        }
    }
}

/// `s` without its leading `#` signs.
pub open spec fn trim_hashes(s: Seq<u8>) -> Seq<u8>
    decreases s.len(),
{
    if s.len() > 0 && s[0] == 35 {
        trim_hashes(s.drop_first())
    } else {
        s
    }
}

/// A byte that continues a multi-byte UTF-8 character.
pub open spec fn is_continuation(c: u8) -> bool {
    128 <= c && c < 192
}

/// The channel pairs can be cut out of `t` (the text after its `#` signs)
/// at character boundaries: it has at least six bytes, and the cuts after
/// the second, fourth and (when more follow) sixth byte fall between
/// characters.
pub open spec fn channels_sliceable(t: Seq<u8>) -> bool {
    &&& t.len() >= 6
    &&& !is_continuation(t[2])
    &&& !is_continuation(t[4])
    &&& t.len() > 6 ==> !is_continuation(t[6])
}

/// The channel read from the pair `c0 c1`, or `default` when the pair is
/// not a hexadecimal number.
pub open spec fn channel_or(c0: u8, c1: u8, default: u8) -> u8 {
    match hex_pair_value(c0, c1) {
        Some(v) => v,
        None => default,
    }
}

/// The colour that the text after the `#` signs stands for.
pub open spec fn hex_rgba_of(t: Seq<u8>) -> HexRgba {
    HexRgba {
        r: channel_or(t[0], t[1], 0),
        g: channel_or(t[2], t[3], 0),
        b: channel_or(t[4], t[5], 0),
        a: if t.len() == 8 {
            channel_or(t[6], t[7], 255)
        } else {
            255
        },
    }
}

/// Reads one hexadecimal digit.
pub fn hex_digit(c: u8) -> (d: Option<u8>)
    ensures
        d == hex_digit_value(c),
{
    if 48 <= c && c <= 57 {
        Some(c - 48)
    } else if 97 <= c && c <= 102 {
        Some(c - 87)
    } else if 65 <= c && c <= 70 {
        Some(c - 55)
    } else {
        None
    }
}

/// Reads a two-byte hexadecimal number.
pub fn hex_pair(c0: u8, c1: u8) -> (v: Option<u8>)
    ensures
        v == hex_pair_value(c0, c1),
{
    if c0 == 43 {
        hex_digit(c1)
    } else {
        match (hex_digit(c0), hex_digit(c1)) {
            (Some(hi), Some(lo)) => Some(hi * 16 + lo),
            _ => None,
        }
    }
}

/// The number of leading `#` signs in `hex`.
pub fn leading_hashes(hex: &[u8]) -> (n: usize)
    ensures
        n <= hex@.len(),
        trim_hashes(hex@) == hex@.subrange(n as int, hex@.len() as int),
{
    let mut i: usize = 0;
    assert(hex@.subrange(0, hex@.len() as int) =~= hex@);
    while i < hex.len() && hex[i] == 35
        invariant
            i <= hex@.len(),
            trim_hashes(hex@) == trim_hashes(hex@.subrange(i as int, hex@.len() as int)),
        decreases hex@.len() - i,
    {
        assert(hex@.subrange(i as int, hex@.len() as int).drop_first() =~= hex@.subrange(
            i + 1,
            hex@.len() as int,
        ));
        i = i + 1;
    }
    i
}

/// Whether the channels can be read from `hex` (the bytes of a colour
/// code's text) without cutting a character.
pub fn hex_is_readable(hex: &[u8]) -> (b: bool)
    ensures
        b == channels_sliceable(trim_hashes(hex@)),
{
    let start = leading_hashes(hex);
    let len = hex.len() - start;
    if len < 6 {
        return false;
    }
    let c2 = hex[start + 2];
    let c4 = hex[start + 4];
    let ok6 = if len > 6 {
        let c6 = hex[start + 6];
        !(128 <= c6 && c6 < 192)
    } else {
        true
    };
    !(128 <= c2 && c2 < 192) && !(128 <= c4 && c4 < 192) && ok6
}

/// Reads the channels of a colour code from the bytes of its text.
pub fn hex_rgba(hex: &[u8]) -> (c: HexRgba)
    requires
        channels_sliceable(trim_hashes(hex@)),
    ensures
        c == hex_rgba_of(trim_hashes(hex@)),
{
    let s = leading_hashes(hex);
    let len = hex.len() - s;
    let r = match hex_pair(hex[s], hex[s + 1]) {
        Some(v) => v,
        None => 0,
    };
    let g = match hex_pair(hex[s + 2], hex[s + 3]) {
        Some(v) => v,
        None => 0,
    };
    let b = match hex_pair(hex[s + 4], hex[s + 5]) {
        Some(v) => v,
        None => 0,
    };
    let a = if len == 8 {
        match hex_pair(hex[s + 6], hex[s + 7]) {
            Some(v) => v,
            None => 255,
        }
    } else {
        255
    };
    HexRgba { r, g, b, a }
}

/// Any number of leading `#` signs reads the same colour: one more `#` in
/// front changes nothing.
pub proof fn law_extra_hash_is_ignored(s: Seq<u8>)
    ensures
        trim_hashes(seq![35u8] + s) == trim_hashes(s),
{
    assert((seq![35u8] + s).drop_first() =~= s);
}

/// Hexadecimal digits read the same in upper and lower case.
pub proof fn law_digits_ignore_case(c: u8)
    requires
        97 <= c <= 102,
    ensures
        hex_digit_value(c) == hex_digit_value((c - 32) as u8),
        hex_digit_value(c) is Some,
{
}

/// The digits `0`-`9`, `a`-`f` and `A`-`F` are worth 0 to 9, 10 to 15 and
/// 10 to 15; no other byte is a digit.
pub proof fn law_digit_values(c: u8)
    ensures
        48 <= c <= 57 ==> hex_digit_value(c) == Some((c - 48) as u8),
        97 <= c <= 102 ==> hex_digit_value(c) == Some((c - 87) as u8),
        65 <= c <= 70 ==> hex_digit_value(c) == Some((c - 55) as u8),
        !(48 <= c <= 57 || 97 <= c <= 102 || 65 <= c <= 70) ==> hex_digit_value(c) is None,
{
}

/// Every channel whose pair is two hexadecimal digits is their base-16
/// value, the alpha pair of an eight-byte code included, so `00` there
/// gives a fully transparent colour; a colour pair that does not start with
/// a digit (or a `+` sign) reads as 0.
pub proof fn law_channels_read_pairs(t: Seq<u8>, hi: u8, lo: u8)
    requires
        t.len() >= 6,
    ensures
        hex_digit_value(t[0]) == Some(hi) && hex_digit_value(t[1]) == Some(lo) ==> hex_rgba_of(t).r
            == hi * 16 + lo,
        hex_digit_value(t[2]) == Some(hi) && hex_digit_value(t[3]) == Some(lo) ==> hex_rgba_of(t).g
            == hi * 16 + lo,
        hex_digit_value(t[4]) == Some(hi) && hex_digit_value(t[5]) == Some(lo) ==> hex_rgba_of(t).b
            == hi * 16 + lo,
        t.len() == 8 && hex_digit_value(t[6]) == Some(hi) && hex_digit_value(t[7]) == Some(lo)
            ==> hex_rgba_of(t).a == hi * 16 + lo,
        t.len() == 8 && t[6] == 48 && t[7] == 48 ==> hex_rgba_of(t).a == 0,
        hex_digit_value(t[0]) is None && t[0] != 43 ==> hex_rgba_of(t).r == 0,
        hex_digit_value(t[2]) is None && t[2] != 43 ==> hex_rgba_of(t).g == 0,
        hex_digit_value(t[4]) is None && t[4] != 43 ==> hex_rgba_of(t).b == 0,
{
}

/// A code without an alpha pair, or whose alpha pair is not a number, is
/// fully opaque; every channel read from two digits is their base-16 value.
pub proof fn law_channels(t: Seq<u8>)
    requires
        t.len() >= 6,
    ensures
        t.len() != 8 ==> hex_rgba_of(t).a == 255,
        t.len() == 8 && hex_pair_value(t[6], t[7]) is None ==> hex_rgba_of(t).a == 255,
        hex_digit_value(t[0]) is Some && hex_digit_value(t[1]) is Some ==> hex_rgba_of(t).r
            == hex_digit_value(t[0]).unwrap() * 16 + hex_digit_value(t[1]).unwrap(),
{
}

} // verus!
