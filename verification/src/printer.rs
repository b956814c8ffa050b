//! Terminal colors: the escape sequence of each color and the wrapping of a
//! piece of text in one.

use vstd::prelude::*;
use vstd::string::*;

verus! {

/// Color options for printing to the terminal.
#[derive(Debug, Clone, Copy, PartialEq, Eq, Structural)]
pub enum Color {
    Red,
    Green,
    Blue,
    Yellow,
    Magenta,
    Cyan,
    White,
}

/// The sequence that ends every colored stretch of text.
pub open spec fn reset_sequence() -> Seq<char> {
    "\x1b[0m"@
}

/// `text` between the escape sequence of `color` and the reset sequence.
pub open spec fn painted(color: Color, text: Seq<char>) -> Seq<char> {
    color.escape() + text + reset_sequence()
}

/// `text` painted in `color` where `use_color` is set, and as it is where it
/// is not.
pub open spec fn tinted(use_color: bool, color: Color, text: Seq<char>) -> Seq<char> {
    if use_color {
        painted(color, text)
    } else {
        text
    }
}

impl Color {
    /// The ANSI escape sequence that switches the terminal to this color, in
    /// bold.
    pub open spec fn escape(self) -> Seq<char> {
        match self {
            Color::Red => "\x1b[1;31m"@,
            Color::Green => "\x1b[1;32m"@,
            Color::Blue => "\x1b[1;34m"@,
            Color::Yellow => "\x1b[1;33m"@,
            Color::Magenta => "\x1b[1;35m"@,
            Color::Cyan => "\x1b[1;36m"@,
            Color::White => "\x1b[1;37m"@,
        }
    }

    /// Get ANSI code for color.
    pub fn code(&self) -> (r: &'static str)
        ensures
            r@ == self.escape(),
    {
        match self {
            Color::Red => "\x1b[1;31m",
            Color::Green => "\x1b[1;32m",
            Color::Blue => "\x1b[1;34m",
            Color::Yellow => "\x1b[1;33m",
            Color::Magenta => "\x1b[1;35m",
            Color::Cyan => "\x1b[1;36m",
            Color::White => "\x1b[1;37m",
        }
    }
}

/// The ANSI reset code.
pub fn reset_code() -> (r: &'static str)
    ensures
        r@ == reset_sequence(),
{
    "\x1b[0m"
}

/// Returns `text` wrapped in the ANSI code of `color` and the reset code.
pub fn color_println_fmt(color: Color, text: &str) -> (r: String)
    ensures
        r@ == painted(color, text@),
{
    let mut out = String::from_str(color.code());
    out.append(text);
    out.append(reset_code());
    out
}

/// Returns `text` painted in `color` where `use_color` is set, and a copy of
/// `text` where it is not.
pub fn tint(use_color: bool, color: Color, text: &str) -> (r: String)
    ensures
        r@ == tinted(use_color, color, text@),
{
    if use_color {
        color_println_fmt(color, text)
    } else {
        String::from_str(text)
    }
}

} // verus!
