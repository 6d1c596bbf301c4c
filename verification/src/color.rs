//! ANSI colouring: a closed set of semantic styles and colours, mapped to
//! their display codes behind one pure function, so that non-terminal
//! outputs can ignore the escape bytes.

use vstd::prelude::*;
use vstd::string::StringExecFns;
use crate::text::digit_char;
use crate::text::digit_str;

verus! {

/// Where the colour applies: the foreground or the background layer.
#[derive(Clone, Copy, PartialEq, Eq, Structural, Debug)]
pub enum Style {
    Fg,
    Bg,
}

/// The eight base terminal colours.
#[derive(Clone, Copy, PartialEq, Eq, Structural, Debug)]
pub enum Color {
    Black,
    Red,
    Green,
    Yellow,
    Blue,
    Magenta,
    Cyan,
    White,
}

/// The leading digit of the escape code for a style.
pub open spec fn style_digit(s: Style) -> int {
    match s {
        Style::Fg => 3,
        Style::Bg => 4,
    }
}

/// The trailing digit of the escape code for a colour.
pub open spec fn color_digit(c: Color) -> int {
    match c {
        Color::Black => 0,
        Color::Red => 1,
        Color::Green => 2,
        Color::Yellow => 3,
        Color::Blue => 4,
        Color::Magenta => 5,
        Color::Cyan => 6,
        Color::White => 7,
    }
}

/// `text` wrapped in the ANSI escape sequence that sets the given style and
/// colour before it and resets the terminal after it.
pub open spec fn colorize_spec(style: Style, color: Color, text: Seq<char>) -> Seq<char> {
    seq!['\x1b', '['] + seq![digit_char(style_digit(style))] + seq![
        digit_char(color_digit(color)),
    ] + seq!['m'] + text + seq!['\x1b', '[', '0', 'm']
}

impl Style {
    /// The display code of this style.
    pub fn code(&self) -> (r: u64)
        ensures
            r == style_digit(*self),
    {
        match self {
            Style::Fg => 3,
            Style::Bg => 4,
        }
    }
}

impl Color {
    /// The display code of this colour.
    pub fn code(&self) -> (r: u64)
        ensures
            r == color_digit(*self),
    {
        match self {
            Color::Black => 0,
            Color::Red => 1,
            Color::Green => 2,
            Color::Yellow => 3,
            Color::Blue => 4,
            Color::Magenta => 5,
            Color::Cyan => 6,
            Color::White => 7,
        }
    }
}

/// `text` wrapped in the escape sequence for the given style and colour.
pub fn colorize(style: Style, color: Color, text: &str) -> (r: String)
    ensures
        r@ == colorize_spec(style, color, text@),
{
    proof {
        reveal_strlit("\x1b[");
        reveal_strlit("m");
        reveal_strlit("\x1b[0m");
    }
    let mut s = String::new();
    s.append("\x1b[");
    s.append(digit_str(style.code()));
    s.append(digit_str(color.code()));
    s.append("m");
    s.append(text);
    s.append("\x1b[0m");
    proof {
        assert(s@ =~= colorize_spec(style, color, text@));
    }
    s
}

/// `text` in the given foreground colour.
pub fn fg(color: Color, text: &str) -> (r: String)
    ensures
        r@ == colorize_spec(Style::Fg, color, text@),
{
    colorize(Style::Fg, color, text)
}

} // verus!
