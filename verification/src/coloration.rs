//! The color selector and the colorized rendering of a title.

use colored::Colorize;
use vstd::prelude::*;

verus! {

/// Selector for the title color: one of the named colors, or an explicit
/// 24-bit RGB triple.
#[derive(Clone, Copy, Debug, PartialEq, Eq, Structural)]
pub enum Color {
    Red,
    Green,
    Yellow,
    Blue,
    Magenta,
    Cyan,
    White,
    TrueColor { r: u8, g: u8, b: u8 },
}

/// Default title color of the stdout printing family: the green of a
/// success line.
pub const DEFAULT_COLOR: Color = Color::Green;

/// Default title color of the stderr printing family: the red of an error
/// line.
pub const DEFAULT_ERROR_COLOR: Color = Color::Red;

/// The lowercase name of a named color; an RGB triple has none.
pub open spec fn name_spec(c: Color) -> Option<Seq<char>> {
    match c {
        Color::Red => Some("red"@),
        Color::Green => Some("green"@),
        Color::Yellow => Some("yellow"@),
        Color::Blue => Some("blue"@),
        Color::Magenta => Some("magenta"@),
        Color::Cyan => Some("cyan"@),
        Color::White => Some("white"@),
        Color::TrueColor { .. } => None,
    }
}

impl Color {
    /// The lowercase name of a named color; an RGB triple has none.
    pub fn name(&self) -> (s: Option<String>)
        ensures
            match s {
                Some(t) => name_spec(*self) == Some(t@),
                None => name_spec(*self) is None,
            },
    {
        match self {
            Color::Red => Some("red".to_owned()),
            Color::Green => Some("green".to_owned()),
            Color::Yellow => Some("yellow".to_owned()),
            Color::Blue => Some("blue".to_owned()),
            Color::Magenta => Some("magenta".to_owned()),
            Color::Cyan => Some("cyan".to_owned()),
            Color::White => Some("white".to_owned()),
            Color::TrueColor { .. } => None,
        }
    }
}

/// The character of a single decimal digit.
pub open spec fn digit_char(d: nat) -> char {
    if d == 0 {
        '0'
    } else if d == 1 {
        '1'
    } else if d == 2 {
        '2'
    } else if d == 3 {
        '3'
    } else if d == 4 {
        '4'
    } else if d == 5 {
        '5'
    } else if d == 6 {
        '6'
    } else if d == 7 {
        '7'
    } else if d == 8 {
        '8'
    } else {
        '9'
    }
}

/// The digits of `n` in decimal, most significant first, as std's integer
/// formatting writes them.
pub open spec fn decimal_rep(n: nat) -> Seq<char>
    decreases n,
{
    if n < 10 {
        seq![digit_char(n)]
    } else {
        decimal_rep(n / 10).push(digit_char(n % 10))
    }
}

/// `body` wrapped in the ANSI prefix for bold text with foreground code
/// `fg`, and the reset suffix.
pub open spec fn ansi_wrapped(fg: Seq<char>, body: Seq<char>) -> Seq<char> {
    seq!['\u{1b}', '[', '1', ';'] + fg + seq!['m'] + body + seq!['\u{1b}', '[', '0', 'm']
}

/// The ANSI foreground code of `c`: the fixed two-digit code of a named
/// color, or the 24-bit form for an RGB triple.
pub open spec fn fg_code(c: Color) -> Seq<char> {
    match c {
        Color::Red => seq!['3', '1'],
        Color::Green => seq!['3', '2'],
        Color::Yellow => seq!['3', '3'],
        Color::Blue => seq!['3', '4'],
        Color::Magenta => seq!['3', '5'],
        Color::Cyan => seq!['3', '6'],
        Color::White => seq!['3', '7'],
        Color::TrueColor { r, g, b } => seq!['3', '8', ';', '2', ';'] + decimal_rep(r as nat)
            + seq![';'] + decimal_rep(g as nat) + seq![';'] + decimal_rep(b as nat),
    }
}

/// The bold, colorized rendering of `s` under `c`, for a terminal that
/// takes the full foreground code of `c`.
pub open spec fn styled_spec(s: Seq<char>, c: Color) -> Seq<char> {
    ansi_wrapped(fg_code(c), s)
}

/// No escape character anywhere in `s`: rendering `s` then keeps it
/// verbatim inside the styled form.
pub open spec fn no_escape(s: Seq<char>) -> bool {
    forall|i: int| 0 <= i < s.len() ==> s[i] != '\u{1b}'
}

/// Relies on colored's `Colorize::color`, `Colorize::bold` and the
/// `Display` rendering of `ColoredString`. When coloring is globally
/// disabled the rendering is the input unchanged; otherwise it is the
/// input wrapped in the bold-plus-foreground escape prefix and the reset
/// suffix. An RGB triple gets its exact 24-bit foreground code only when
/// the terminal advertises 24-bit support; otherwise colored substitutes
/// the code of the nearest basic color, so for `TrueColor` only the shape
/// of the wrapping is promised.
#[verifier::external_body]
pub fn colorize_string(string: &str, color: &Color) -> (r: String)
    ensures
        no_escape(string@) ==> (r@ == string@ || r@ == styled_spec(string@, *color) || (*color
            is TrueColor && exists|fg: Seq<char>| r@ == ansi_wrapped(fg, string@))),
{
    let c = match color {
        Color::Red => colored::Color::Red,
        Color::Green => colored::Color::Green,
        Color::Yellow => colored::Color::Yellow,
        Color::Blue => colored::Color::Blue,
        Color::Magenta => colored::Color::Magenta,
        Color::Cyan => colored::Color::Cyan,
        Color::White => colored::Color::White,
        Color::TrueColor { r, g, b } => colored::Color::TrueColor { r: *r, g: *g, b: *b },
    };
    string.color(c).bold().to_string()
}

} // verus!
