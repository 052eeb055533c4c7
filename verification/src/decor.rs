//! ANSI rendering of prompt fragments: a string wrapped in nested bold and
//! color decorations, rendered to the escape sequences a terminal expects.

use vstd::prelude::*;
use vstd::string::*;

verus! {

/// The terminal colors the prompt uses.
#[derive(Clone, Copy, Debug, PartialEq, Eq, Structural)]
pub enum Color {
    Red,
    Green,
    Yellow,
    Blue,
    Magenta,
    Cyan,
    White,
}

/// The ANSI foreground code of each color.
pub open spec fn color_code(c: Color) -> int {
    match c {
        Color::Red => 31,
        Color::Green => 32,
        Color::Yellow => 33,
        Color::Blue => 34,
        Color::Magenta => 35,
        Color::Cyan => 36,
        Color::White => 37,
    }
}

/// The decimal digits of each color's ANSI foreground code.
pub open spec fn color_code_chars(c: Color) -> Seq<char> {
    match c {
        Color::Red => "31"@,
        Color::Green => "32"@,
        Color::Yellow => "33"@,
        Color::Blue => "34"@,
        Color::Magenta => "35"@,
        Color::Cyan => "36"@,
        Color::White => "37"@,
    }
}

impl Color {
    /// The ANSI foreground code of the color.
    pub fn to_ansi(&self) -> (r: i32)
        ensures
            r as int == color_code(*self),
    {
        match self {
            Color::Red => 31,
            Color::Green => 32,
            Color::Yellow => 33,
            Color::Blue => 34,
            Color::Magenta => 35,
            Color::Cyan => 36,
            Color::White => 37,
        }
    }

    /// The ANSI foreground code of the color, as its decimal digits.
    pub fn code_str(&self) -> (r: &'static str)
        ensures
            r@ == color_code_chars(*self),
    {
        match self {
            Color::Red => "31",
            Color::Green => "32",
            Color::Yellow => "33",
            Color::Blue => "34",
            Color::Magenta => "35",
            Color::Cyan => "36",
            Color::White => "37",
        }
    }
}

/// A string wrapped in nested bold and color decorations.
pub enum DecoratedString {
    Bold(Box<DecoratedString>),
    Colored(Box<DecoratedString>, Color),
    Default(String),
}

/// `s` wrapped in the ANSI bold toggle.
pub open spec fn bold_wrap(s: Seq<char>) -> Seq<char> {
    "\x1b[1m"@ + s + "\x1b[22m"@
}

/// `s` wrapped in the ANSI foreground color toggle for `c`.
pub open spec fn color_wrap(s: Seq<char>, c: Color) -> Seq<char> {
    "\x1b["@ + color_code_chars(c) + "m"@ + s + "\x1b[39m"@
}

/// The full ANSI rendering of a decorated string.
pub open spec fn ansi_of(d: DecoratedString) -> Seq<char>
    decreases d,
{
    match d {
        DecoratedString::Bold(inner) => bold_wrap(ansi_of(*inner)),
        DecoratedString::Colored(inner, color) => color_wrap(ansi_of(*inner), color),
        DecoratedString::Default(s) => s@,
    }
}

impl DecoratedString {
    /// Append the ANSI rendering of `val` to `s`.
    pub fn append_to_ansi(val: &DecoratedString, s: &mut String)
        ensures
            final(s)@ == old(s)@ + ansi_of(*val),
        decreases *val,
    {
        match val {
            DecoratedString::Bold(inner) => {
                s.append("\x1b[1m");
                Self::append_to_ansi(inner, s);
                s.append("\x1b[22m");
                assert(s@ =~= old(s)@ + ansi_of(*val));
            },
            DecoratedString::Colored(inner, color) => {
                s.append("\x1b[");
                s.append(color.code_str());
                s.append("m");
                Self::append_to_ansi(inner, s);
                s.append("\x1b[39m");
                assert(s@ =~= old(s)@ + ansi_of(*val));
            },
            DecoratedString::Default(v) => {
                s.append(v.as_str());
            },
        }
    }

    /// Render the decorated string to its ANSI form.
    pub fn to_ansi(&self) -> (r: String)
        ensures
            r@ == ansi_of(*self),
    {
        let mut ret = String::new();
        Self::append_to_ansi(self, &mut ret);
        proof {
            assert(ret@ =~= ansi_of(*self));
        }
        ret
    }

    /// Wrap the decoration in bold.
    pub fn bold(self) -> (r: DecoratedString)
        ensures
            ansi_of(r) == bold_wrap(ansi_of(self)),
    {
        DecoratedString::Bold(Box::new(self))
    }

    /// Wrap the decoration in a foreground color.
    pub fn colored(self, color: Color) -> (r: DecoratedString)
        ensures
            ansi_of(r) == color_wrap(ansi_of(self), color),
    {
        DecoratedString::Colored(Box::new(self), color)
    }

    /// An undecorated string.
    pub fn new(s: String) -> (r: DecoratedString)
        ensures
            ansi_of(r) == s@,
    {
        DecoratedString::Default(s)
    }
}

} // verus!
