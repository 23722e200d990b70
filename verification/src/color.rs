//! Colors as four single-precision channels, carried as bit patterns, and the
//! checked core of parsing a hexadecimal color string into byte channels.

use vstd::prelude::*;

verus! {

use vstd::string::StringSliceAdditionalSpecFns;

/// The IEEE-754 bit pattern of the single-precision value one, the channel
/// value of an opaque white color.
pub const FLOAT_ONE_BITS: u32 = 0x3F80_0000;

/// A color with red, green, blue and alpha channels, each a single-precision
/// float carried as its IEEE-754 bit pattern. This library never interprets
/// the channel values; it only routes them into planned calls.
#[derive(Debug, Clone, Copy, PartialEq, Eq, Structural)]
pub struct Color {
    pub r_bits: u32,
    pub g_bits: u32,
    pub b_bits: u32,
    pub a_bits: u32,
}

impl Color {
    /// Builds a color from four channel bit patterns.
    pub fn from_bits(r_bits: u32, g_bits: u32, b_bits: u32, a_bits: u32) -> (c: Color)
        ensures
            c == (Color { r_bits, g_bits, b_bits, a_bits }),
    {
        Color { r_bits, g_bits, b_bits, a_bits }
    }

    /// Opaque white: every channel is one.
    pub fn opaque_white() -> (c: Color)
        ensures
            c == Color::spec_opaque_white(),
    {
        Color {
            r_bits: FLOAT_ONE_BITS,
            g_bits: FLOAT_ONE_BITS,
            b_bits: FLOAT_ONE_BITS,
            a_bits: FLOAT_ONE_BITS,
        }
    }

    /// The opaque white color.
    pub open spec fn spec_opaque_white() -> Color {
        Color {
            r_bits: FLOAT_ONE_BITS,
            g_bits: FLOAT_ONE_BITS,
            b_bits: FLOAT_ONE_BITS,
            a_bits: FLOAT_ONE_BITS,
        }
    }
}

/// Whether `b` is the ASCII code of a hexadecimal digit.
pub open spec fn is_hex_digit(b: u8) -> bool {
    (48 <= b && b <= 57) || (97 <= b && b <= 102) || (65 <= b && b <= 70)
}

/// The value of the hexadecimal digit with ASCII code `b`.
pub open spec fn hex_digit_value(b: u8) -> u8
    recommends
        is_hex_digit(b),
{
    if 48 <= b && b <= 57 {
        (b - 48) as u8
    } else if 97 <= b && b <= 102 {
        (b - 97 + 10) as u8
    } else {
        (b - 65 + 10) as u8
    }
}

/// Whether every byte of `s` is a hexadecimal digit.
pub open spec fn all_hex_digits(s: Seq<u8>) -> bool {
    forall|i: int| 0 <= i < s.len() ==> is_hex_digit(#[trigger] s[i])
}

/// The byte written as the two hexadecimal digits `hi`, `lo`.
pub open spec fn hex_pair_value(hi: u8, lo: u8) -> u8
    recommends
        is_hex_digit(hi),
        is_hex_digit(lo),
{
    (hex_digit_value(hi) * 16 + hex_digit_value(lo)) as u8
}

/// The channel written as the single hexadecimal digit `d`: the digit value
/// scaled by seventeen, so that each of the sixteen digits names an evenly
/// spaced byte and the digit `f` names 255.
pub open spec fn hex_single_value(d: u8) -> u8
    recommends
        is_hex_digit(d),
{
    (hex_digit_value(d) * 17) as u8
}

/// `s` with every leading number-sign byte removed.
pub open spec fn strip_leading_hashes(s: Seq<u8>) -> Seq<u8>
    decreases s.len(),
{
    if s.len() > 0 && s[0] == 35 {
        strip_leading_hashes(s.skip(1))
    } else {
        s
    }
}

/// The red, green, blue and alpha byte channels written by the hexadecimal
/// color string `s`, after leading number signs are removed: three or six
/// digits give an opaque color, four or eight give one with alpha; any other
/// length, or any byte that is not a hexadecimal digit, parses to nothing.
pub open spec fn hex_color_channels(s: Seq<u8>) -> Option<(u8, u8, u8, u8)> {
    let h = strip_leading_hashes(s);
    if !all_hex_digits(h) {
        None
    } else if h.len() == 3 {
        Some((hex_single_value(h[0]), hex_single_value(h[1]), hex_single_value(h[2]), 255u8))
    } else if h.len() == 4 {
        Some(
            (
                hex_single_value(h[0]),
                hex_single_value(h[1]),
                hex_single_value(h[2]),
                hex_single_value(h[3]),
            ),
        )
    } else if h.len() == 6 {
        Some(
            (hex_pair_value(h[0], h[1]), hex_pair_value(h[2], h[3]), hex_pair_value(h[4], h[5]), 255u8),
        )
    } else if h.len() == 8 {
        Some(
            (
                hex_pair_value(h[0], h[1]),
                hex_pair_value(h[2], h[3]),
                hex_pair_value(h[4], h[5]),
                hex_pair_value(h[6], h[7]),
            ),
        )
    } else {
        None
    }
}

proof fn lemma_strip_skips_hashes(s: Seq<u8>, i: int)
    requires
        0 <= i <= s.len(),
        forall|j: int| 0 <= j < i ==> s[j] == 35,
    ensures
        strip_leading_hashes(s) == strip_leading_hashes(s.skip(i)),
    decreases i,
{
    if i > 0 {
        assert(s.len() > 0 && s[0] == 35);
        assert(strip_leading_hashes(s) == strip_leading_hashes(s.skip(1)));
        lemma_strip_skips_hashes(s.skip(1), i - 1);
        assert(s.skip(1).skip(i - 1) =~= s.skip(i));
    } else {
        assert(s.skip(0) =~= s);
    }
}

/// The value of the hexadecimal digit with ASCII code `b`, or nothing where
/// `b` is no such digit.
fn hex_digit(b: u8) -> (r: Option<u8>)
    ensures
        r == (if is_hex_digit(b) {
            Some(hex_digit_value(b))
        } else {
            None::<u8>
        }),
{
    if 48 <= b && b <= 57 {
        Some(b - 48)
    } else if 97 <= b && b <= 102 {
        Some(b - 97 + 10)
    } else if 65 <= b && b <= 70 {
        Some(b - 65 + 10)
    } else {
        None
    }
}

/// The byte written by the two hexadecimal digits at `i`, `i + 1` of `h`.
fn hex_pair(h: &[u8], i: usize) -> (r: Option<u8>)
    requires
        i + 1 < h@.len(),
    ensures
        r == (if is_hex_digit(h@[i as int]) && is_hex_digit(h@[i + 1]) {
            Some(hex_pair_value(h@[i as int], h@[i + 1]))
        } else {
            None::<u8>
        }),
{
    let hi = hex_digit(h[i]);
    let lo = hex_digit(h[i + 1]);
    match (hi, lo) {
        (Some(hi), Some(lo)) => Some(hi * 16 + lo),
        _ => None,
    }
}

/// The channel written by the single hexadecimal digit at `i` of `h`.
fn hex_single(h: &[u8], i: usize) -> (r: Option<u8>)
    requires
        i < h@.len(),
    ensures
        r == (if is_hex_digit(h@[i as int]) {
            Some(hex_single_value(h@[i as int]))
        } else {
            None::<u8>
        }),
{
    match hex_digit(h[i]) {
        Some(d) => Some(d * 17),
        None => None,
    }
}

/// Parses a hexadecimal color string into its four byte channels: an optional
/// run of leading number signs, then three, four, six or eight hexadecimal
/// digits. Three and six digit forms are opaque; in the short forms each
/// digit names one channel, scaled so that `f` is 255.
pub fn parse_hex_rgba(s: &str) -> (r: Option<(u8, u8, u8, u8)>)
    ensures
        r == hex_color_channels(s.spec_bytes()),
{
    let bytes: &[u8] = s.as_bytes();
    let len: usize = bytes.len();
    let mut start: usize = 0;
    while start < len && bytes[start] == 35
        invariant
            0 <= start <= len,
            len == bytes@.len(),
            bytes@ == s.spec_bytes(),
            forall|j: int| 0 <= j < start ==> bytes@[j] == 35,
        decreases len - start,
    {
        start = start + 1;
    }
    proof {
        lemma_strip_skips_hashes(bytes@, start as int);
        assert(strip_leading_hashes(bytes@.skip(start as int)) == bytes@.skip(start as int));
    }
    let ghost h = strip_leading_hashes(s.spec_bytes());
    proof {
        assert(h =~= bytes@.skip(start as int));
        assert(h.len() == len - start);
        assert(forall|i: int| 0 <= i < h.len() ==> h[i] == bytes@[start + i]);
    }
    let rest: usize = len - start;
    if rest == 3 {
        let r = hex_single(bytes, start);
        let g = hex_single(bytes, start + 1);
        let b = hex_single(bytes, start + 2);
        match (r, g, b) {
            (Some(r), Some(g), Some(b)) => {
                proof {
                    assert(all_hex_digits(h)) by {
                        assert(forall|i: int| 0 <= i < 3 ==> h[i] == bytes@[start + i]);
                    }
                }
                Some((r, g, b, 255))
            },
            _ => None,
        }
    } else if rest == 4 {
        let r = hex_single(bytes, start);
        let g = hex_single(bytes, start + 1);
        let b = hex_single(bytes, start + 2);
        let a = hex_single(bytes, start + 3);
        match (r, g, b, a) {
            (Some(r), Some(g), Some(b), Some(a)) => {
                proof {
                    assert(all_hex_digits(h)) by {
                        assert(forall|i: int| 0 <= i < 4 ==> h[i] == bytes@[start + i]);
                    }
                }
                Some((r, g, b, a))
            },
            _ => None,
        }
    } else if rest == 6 {
        let r = hex_pair(bytes, start);
        let g = hex_pair(bytes, start + 2);
        let b = hex_pair(bytes, start + 4);
        match (r, g, b) {
            (Some(r), Some(g), Some(b)) => {
                proof {
                    assert(all_hex_digits(h)) by {
                        assert(forall|i: int| 0 <= i < 6 ==> h[i] == bytes@[start + i]);
                    }
                }
                Some((r, g, b, 255))
            },
            _ => None,
        }
    } else if rest == 8 {
        let r = hex_pair(bytes, start);
        let g = hex_pair(bytes, start + 2);
        let b = hex_pair(bytes, start + 4);
        let a = hex_pair(bytes, start + 6);
        match (r, g, b, a) {
            (Some(r), Some(g), Some(b), Some(a)) => {
                proof {
                    assert(all_hex_digits(h)) by {
                        assert(forall|i: int| 0 <= i < 8 ==> h[i] == bytes@[start + i]);
                    }
                }
                Some((r, g, b, a))
            },
            _ => None,
        }
    } else {
        None
    }
}

} // verus!
