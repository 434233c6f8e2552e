//! Sector colours and the hex notation a palette is written in.

use vstd::prelude::*;
use vstd::string::StrSliceExecFns;

verus! {

/// A colour of the palette.
///
/// `Pink` is the sentinel that stands for a palette entry that could not be
/// read: it is drawn in a fixed, conspicuous pink, so that a bad entry shows
/// on the wheel instead of stopping the program.
#[derive(Clone, Copy, Debug, PartialEq, Eq, Structural)]
pub enum Color {
    Rgba { r: u8, g: u8, b: u8, a: u8 },
    Pink,
}

/// The value of a hexadecimal digit, in either case; `None` for any other
/// character.
pub open spec fn hex_value(c: char) -> Option<u8> {
    if '0' <= c <= '9' {
        Some((c as int - '0' as int) as u8)
    } else if 'a' <= c <= 'f' {
        Some((c as int - 'a' as int + 10) as u8)
    } else if 'A' <= c <= 'F' {
        Some((c as int - 'A' as int + 10) as u8)
    } else {
        None
    }
}

/// The text without one leading `#`, if it has one.
pub open spec fn strip_hash(s: Seq<char>) -> Seq<char> {
    if s.len() > 0 && s[0] == '#' {
        s.subrange(1, s.len() as int)
    } else {
        s
    }
}

/// A palette entry is well formed when, after one optional leading `#`,
/// exactly six hexadecimal digits remain.
pub open spec fn is_hex_color(s: Seq<char>) -> bool {
    let digits = strip_hash(s);
    &&& digits.len() == 6
    &&& forall|i: int| 0 <= i < 6 ==> (#[trigger] hex_value(digits[i])) is Some
}

/// The channel written by two hexadecimal digits, high digit first.
pub open spec fn channel(hi: char, lo: char) -> u8
    recommends
        hex_value(hi) is Some,
        hex_value(lo) is Some,
{
    (16 * hex_value(hi)->0 + hex_value(lo)->0) as u8
}

/// The colour that a palette entry denotes: opaque red, green and blue for a
/// well-formed entry, the pink sentinel for any other text.
pub open spec fn hex_color(s: Seq<char>) -> Color {
    let digits = strip_hash(s);
    if is_hex_color(s) {
        Color::Rgba {
            r: channel(digits[0], digits[1]),
            g: channel(digits[2], digits[3]),
            b: channel(digits[4], digits[5]),
            a: 255,
        }
    } else {
        Color::Pink
    }
}

/// Reads one hexadecimal digit.
pub fn hex_digit(c: char) -> (v: Option<u8>)
    ensures
        v == hex_value(c),
        v matches Some(d) ==> d < 16,
{
    if '0' <= c && c <= '9' {
        Some((c as u32 - '0' as u32) as u8)
    } else if 'a' <= c && c <= 'f' {
        Some((c as u32 - 'a' as u32 + 10) as u8)
    } else if 'A' <= c && c <= 'F' {
        Some((c as u32 - 'A' as u32 + 10) as u8)
    } else {
        None
    }
}

/// Reads the two digits at `at` and `at + 1` as one channel.
fn read_channel(text: &str, at: usize) -> (v: Option<u8>)
    requires
        at + 1 < text@.len() <= usize::MAX,
    ensures
        v is Some <==> hex_value(text@[at as int]) is Some && hex_value(text@[at + 1]) is Some,
        v matches Some(x) ==> x == channel(text@[at as int], text@[at + 1]),
{
    let hi = hex_digit(text.get_char(at));
    let lo = hex_digit(text.get_char(at + 1));
    match (hi, lo) {
        (Some(h), Some(l)) => Some(h * 16 + l),
        _ => None,
    }
}

/// Reads a palette entry such as `#fb2646` or `0077ff`.
///
/// A malformed entry is no error: it yields the pink sentinel.
pub fn convert_hex(hex_code: &str) -> (color: Color)
    ensures
        color == hex_color(hex_code@),
{
    let len = hex_code.unicode_len();
    let start: usize = if len > 0 && hex_code.get_char(0) == '#' {
        1
    } else {
        0
    };
    if len - start != 6 {
        return Color::Pink;
    }
    let ghost digits = strip_hash(hex_code@);
    assert(forall|i: int| 0 <= i < 6 ==> digits[i] == hex_code@[start + i]);
    let r = read_channel(hex_code, start);
    let g = read_channel(hex_code, start + 2);
    let b = read_channel(hex_code, start + 4);
    match (r, g, b) {
        (Some(r), Some(g), Some(b)) => {
            assert forall|i: int| 0 <= i < 6 implies (#[trigger] hex_value(digits[i])) is Some by {
                assert(i == 0 || i == 1 || i == 2 || i == 3 || i == 4 || i == 5);
            }
            Color::Rgba { r, g, b, a: 255 }
        },
        _ => {
            assert(!is_hex_color(hex_code@)) by {
                assert(hex_value(digits[0]) is None || hex_value(digits[1]) is None || hex_value(
                    digits[2],
                ) is None || hex_value(digits[3]) is None || hex_value(digits[4]) is None
                    || hex_value(digits[5]) is None);
            }
            Color::Pink
        },
    }
}

} // verus!
