//! RGB colours, their `#rrggbb` text form, and the linear blend of two colours.

use vstd::prelude::*;

verus! {

/// An RGB colour with eight bits per channel.
#[derive(Debug, Clone, Copy, PartialEq, Eq, Structural)]
pub struct Color {
    pub r: u8,
    pub g: u8,
    pub b: u8,
}

/// The sixteen digits that a colour is written with, by value.
pub open spec fn hex_digits() -> Seq<char> {
    seq!['0', '1', '2', '3', '4', '5', '6', '7', '8', '9', 'a', 'b', 'c', 'd', 'e', 'f']
}

/// Whether `c` is a hexadecimal digit, in either case.
pub open spec fn is_hex_digit(c: char) -> bool {
    ('0' <= c && c <= '9') || ('a' <= c && c <= 'f') || ('A' <= c && c <= 'F')
}

/// The value of the hexadecimal digit `c`.
pub open spec fn hex_digit_value(c: char) -> int
    recommends
        is_hex_digit(c),
{
    if '0' <= c && c <= '9' {
        c as int - '0' as int
    } else if 'a' <= c && c <= 'f' {
        c as int - 'a' as int + 10
    } else {
        c as int - 'A' as int + 10
    }
}

/// Whether `text` is a colour code: `#` followed by exactly six hexadecimal digits.
pub open spec fn is_hex_code(text: Seq<char>) -> bool {
    &&& text.len() == 7
    &&& text[0] == '#'
    &&& forall|i: int| 1 <= i < 7 ==> is_hex_digit(#[trigger] text[i])
}

/// The value of the two-digit channel that starts at position `at` of `text`.
pub open spec fn hex_channel(text: Seq<char>, at: int) -> int {
    16 * hex_digit_value(text[at]) + hex_digit_value(text[at + 1])
}

/// The colour that the colour code `text` stands for.
pub open spec fn hex_code_color(text: Seq<char>) -> Color
    recommends
        is_hex_code(text),
{
    Color {
        r: hex_channel(text, 1) as u8,
        g: hex_channel(text, 3) as u8,
        b: hex_channel(text, 5) as u8,
    }
}

/// The two lower-case digits of one channel.
pub open spec fn channel_text(value: u8) -> Seq<char> {
    seq![hex_digits()[value as int / 16], hex_digits()[value as int % 16]]
}

/// The colour code of `color`, in lower case.
pub open spec fn color_hex_code(color: Color) -> Seq<char> {
    seq!['#'] + channel_text(color.r) + channel_text(color.g) + channel_text(color.b)
}

/// One channel of the blend of `start` and `end` at position `loc` of a canvas
/// `width` wide: the weighted mean `(start * (width - loc) + end * loc) / width`,
/// rounded down and kept within a byte. Without a width there is no ratio, and
/// the channel is zero.
pub open spec fn blended_channel(start: u8, end: u8, loc: u32, width: u32) -> int {
    if width == 0 {
        0
    } else {
        let mean = (start as int * (width as int - loc as int) + end as int * loc as int)
            / (width as int);
        if mean < 0 {
            0
        } else if mean > 255 {
            255
        } else {
            mean
        }
    }
}

/// The blend of two colours, channel by channel.
pub open spec fn blended_color(start: Color, end: Color, loc: u32, width: u32) -> Color {
    Color {
        r: blended_channel(start.r, end.r, loc, width) as u8,
        g: blended_channel(start.g, end.g, loc, width) as u8,
        b: blended_channel(start.b, end.b, loc, width) as u8,
    }
}

/// The value of a hexadecimal digit, or `None` for any other character.
fn hex_value(c: char) -> (value: Option<u8>)
    ensures
        value == if is_hex_digit(c) {
            Some(hex_digit_value(c) as u8)
        } else {
            None
        },
        is_hex_digit(c) ==> 0 <= hex_digit_value(c) < 16,
{
    let code: u32 = c as u32;
    if '0' <= c && c <= '9' {
        Some((code - 48) as u8)
    } else if 'a' <= c && c <= 'f' {
        Some((code - 87) as u8)
    } else if 'A' <= c && c <= 'F' {
        Some((code - 55) as u8)
    } else {
        None
    }
}

/// The two digits at `at` and `at + 1` of `text` as one channel.
fn parse_channel(text: &str, at: usize) -> (value: Option<u8>)
    requires
        at + 1 < text@.len(),
        at < 6,
    ensures
        value == if is_hex_digit(text@[at as int]) && is_hex_digit(text@[at + 1]) {
            Some(hex_channel(text@, at as int) as u8)
        } else {
            None
        },
        is_hex_digit(text@[at as int]) && is_hex_digit(text@[at + 1]) ==> 0 <= hex_channel(
            text@,
            at as int,
        ) < 256,
{
    match hex_value(text.get_char(at)) {
        Some(high) => match hex_value(text.get_char(at + 1)) {
            Some(low) => Some(16 * high + low),
            None => None,
        },
        None => None,
    }
}

/// The text of one hexadecimal digit.
pub(crate) fn hex_digit_text(value: u8) -> (text: &'static str)
    requires
        value < 16,
    ensures
        text@ == seq![hex_digits()[value as int]],
{
    proof {
        reveal_strlit("0");
        reveal_strlit("1");
        reveal_strlit("2");
        reveal_strlit("3");
        reveal_strlit("4");
        reveal_strlit("5");
        reveal_strlit("6");
        reveal_strlit("7");
        reveal_strlit("8");
        reveal_strlit("9");
        reveal_strlit("a");
        reveal_strlit("b");
        reveal_strlit("c");
        reveal_strlit("d");
        reveal_strlit("e");
        reveal_strlit("f");
    }
    let text = match value {
        0 => "0",
        1 => "1",
        2 => "2",
        3 => "3",
        4 => "4",
        5 => "5",
        6 => "6",
        7 => "7",
        8 => "8",
        9 => "9",
        10 => "a",
        11 => "b",
        12 => "c",
        13 => "d",
        14 => "e",
        _ => "f",
    };
    assert(text@ =~= seq![hex_digits()[value as int]]);
    text
}

/// One blended channel.
fn mix_channel(start: u8, end: u8, loc: u32, width: u32) -> (value: u8)
    ensures
        value == blended_channel(start, end, loc, width),
{
    if width == 0 {
        return 0;
    }
    let span: i64 = width as i64 - loc as i64;
    assert(-0x1_0000_0000_00 < (start as i64) * span < 0x1_0000_0000_00) by (nonlinear_arith)
        requires
            0 <= start < 0x100,
            -0x1_0000_0000 < span < 0x1_0000_0000,
    ;
    assert(0 <= (end as i64) * (loc as i64) < 0x1_0000_0000_00) by (nonlinear_arith)
        requires
            0 <= end < 0x100,
            0 <= loc < 0x1_0000_0000,
    ;
    let weighted: i64 = (start as i64) * span + (end as i64) * (loc as i64);
    if weighted < 0 {
        assert(weighted as int / (width as int) < 0) by (nonlinear_arith)
            requires
                weighted < 0,
                width > 0,
        ;
        0
    } else {
        let mean: i64 = weighted / (width as i64);
        if mean > 255 {
            255
        } else {
            mean as u8
        }
    }
}

impl Color {
    /// A colour from its three channels.
    pub fn new(r: u8, g: u8, b: u8) -> (color: Self)
        ensures
            color == (Color { r, g, b }),
    {
        Color { r, g, b }
    }

    /// Reads a colour code. Anything but `#` and six hexadecimal digits is
    /// rejected.
    pub fn from_hex_code(hex_code: &str) -> (color: Option<Self>)
        ensures
            color == if is_hex_code(hex_code@) {
                Some(hex_code_color(hex_code@))
            } else {
                None
            },
    {
        if hex_code.unicode_len() != 7 {
            return None;
        }
        if hex_code.get_char(0) != '#' {
            return None;
        }
        let r = parse_channel(hex_code, 1);
        let g = parse_channel(hex_code, 3);
        let b = parse_channel(hex_code, 5);
        match (r, g, b) {
            (Some(r), Some(g), Some(b)) => Some(Color::new(r, g, b)),
            _ => None,
        }
    }

    /// Writes the colour as `#rrggbb`, in lower case.
    pub fn to_hex_code(&self) -> (text: String)
        ensures
            text@ == color_hex_code(*self),
    {
        let mut text = String::from_str("#");
        proof {
            reveal_strlit("#");
        }
        text.append(hex_digit_text(self.r / 16));
        text.append(hex_digit_text(self.r % 16));
        text.append(hex_digit_text(self.g / 16));
        text.append(hex_digit_text(self.g % 16));
        text.append(hex_digit_text(self.b / 16));
        text.append(hex_digit_text(self.b % 16));
        assert(text@ =~= color_hex_code(*self));
        text
    }

    /// Blends this colour with `end`: this colour at `loc == 0`, `end` at
    /// `loc == width`, linear in between and saturating beyond.
    pub fn mix(&self, end: &Color, loc: u32, width: u32) -> (color: Color)
        ensures
            color == blended_color(*self, *end, loc, width),
    {
        Color {
            r: mix_channel(self.r, end.r, loc, width),
            g: mix_channel(self.g, end.g, loc, width),
            b: mix_channel(self.b, end.b, loc, width),
        }
    }
}

/// Blends two colours given as colour codes and writes the blend as a colour
/// code. `None` exactly when either code is malformed.
pub fn mix_colors(color_be: &str, color_ed: &str, loc: u32, width: u32) -> (mixed: Option<String>)
    ensures
        is_hex_code(color_be@) && is_hex_code(color_ed@) <==> mixed is Some,
        mixed is Some ==> mixed->Some_0@ == color_hex_code(
            blended_color(hex_code_color(color_be@), hex_code_color(color_ed@), loc, width),
        ),
{
    let start_color = match Color::from_hex_code(color_be) {
        Some(color) => color,
        None => {
            return None;
        },
    };
    let end_color = match Color::from_hex_code(color_ed) {
        Some(color) => color,
        None => {
            return None;
        },
    };
    Some(start_color.mix(&end_color, loc, width).to_hex_code())
}

/// Writing a colour and reading it back gives the colour again.
pub proof fn lemma_hex_code_round_trip(color: Color)
    ensures
        is_hex_code(color_hex_code(color)),
        hex_code_color(color_hex_code(color)) == color,
{
    let text = color_hex_code(color);
    assert(text.len() == 7);
    assert forall|v: int| 0 <= v < 16 implies is_hex_digit(#[trigger] hex_digits()[v])
        && hex_digit_value(hex_digits()[v]) == v by {
    }
    assert forall|i: int| 1 <= i < 7 implies is_hex_digit(#[trigger] text[i]) by {
    }
}

/// A product divided by one of its factors gives the other.
proof fn lemma_exact_quotient(value: int, width: int)
    requires
        width > 0,
    ensures
        (value * (width - 0) + 0 * 0) / width == value,
        (0 * (width - width) + value * width) / width == value,
        forall|other: int| #[trigger] (value * (width - 0) + other * 0) / width == value,
        forall|other: int| #[trigger] (other * (width - width) + value * width) / width == value,
{
    assert((value * width) / width == value) by (nonlinear_arith)
        requires
            width > 0,
    ;
    assert forall|other: int| #[trigger] (value * (width - 0) + other * 0) / width == value by {
        assert(value * (width - 0) + other * 0 == value * width) by (nonlinear_arith);
    }
    assert forall|other: int| #[trigger]
        (other * (width - width) + value * width) / width == value by {
        assert(other * (width - width) + value * width == value * width) by (nonlinear_arith);
    }
}

/// Blending is the start colour at the left edge and the end colour at the
/// right edge.
pub proof fn lemma_blend_endpoints(start: Color, end: Color, width: u32)
    requires
        width > 0,
    ensures
        blended_color(start, end, 0, width) == start,
        blended_color(start, end, width, width) == end,
{
    lemma_exact_quotient(start.r as int, width as int);
    lemma_exact_quotient(start.g as int, width as int);
    lemma_exact_quotient(start.b as int, width as int);
    lemma_exact_quotient(end.r as int, width as int);
    lemma_exact_quotient(end.g as int, width as int);
    lemma_exact_quotient(end.b as int, width as int);
}

} // verus!
