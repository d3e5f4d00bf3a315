//! Terminal colors: the hues in use, their escape sequences, and painting text.
use colored::{Color, Colorize};
use vstd::prelude::*;

verus! {

/// A terminal foreground color.
#[derive(Clone, Copy, Debug, PartialEq, Eq, Structural)]
pub enum Hue {
    Black,
    Red,
    Green,
    Yellow,
    Magenta,
    BrightBlack,
    BrightRed,
    BrightGreen,
    BrightYellow,
    BrightBlue,
    BrightMagenta,
    BrightCyan,
}

/// The SGR foreground code of a hue.
pub open spec fn fg_code(h: Hue) -> Seq<char> {
    match h {
        Hue::Black => seq!['3', '0'],
        Hue::Red => seq!['3', '1'],
        Hue::Green => seq!['3', '2'],
        Hue::Yellow => seq!['3', '3'],
        Hue::Magenta => seq!['3', '5'],
        Hue::BrightBlack => seq!['9', '0'],
        Hue::BrightRed => seq!['9', '1'],
        Hue::BrightGreen => seq!['9', '2'],
        Hue::BrightYellow => seq!['9', '3'],
        Hue::BrightBlue => seq!['9', '4'],
        Hue::BrightMagenta => seq!['9', '5'],
        Hue::BrightCyan => seq!['9', '6'],
    }
}

/// `text` between the escape that selects `h` and the escape that resets all attributes.
pub open spec fn ansi_wrap(text: Seq<char>, h: Hue) -> Seq<char> {
    seq!['\x1b', '['] + fg_code(h) + seq!['m'] + text + seq!['\x1b', '[', '0', 'm']
}

/// `t` shows `text` in hue `h`: either plainly (colored output is off) or
/// wrapped in the escapes of `h` (colored output is on).
pub open spec fn shows(t: Seq<char>, text: Seq<char>, h: Hue) -> bool {
    t == text || t == ansi_wrap(text, h)
}

/// Relies on colored's `Colorize::color` for `&str` and on `ToString` through
/// `ColoredString`'s `Display`: the text alone when colored output is off,
/// else the foreground escape of the color, the text and the reset escape
/// (text without an escape character is written unchanged). Whether colored
/// output is on is decided by colored from the environment and from whether
/// standard output is a terminal.
#[verifier::external_body]
pub(crate) fn paint(text: &str, hue: Hue) -> (r: String)
    ensures
        !text@.contains('\x1b') ==> shows(r@, text@, hue),
{
    let color = match hue {
        Hue::Black => Color::Black,
        Hue::Red => Color::Red,
        Hue::Green => Color::Green,
        Hue::Yellow => Color::Yellow,
        Hue::Magenta => Color::Magenta,
        Hue::BrightBlack => Color::BrightBlack,
        Hue::BrightRed => Color::BrightRed,
        Hue::BrightGreen => Color::BrightGreen,
        Hue::BrightYellow => Color::BrightYellow,
        Hue::BrightBlue => Color::BrightBlue,
        Hue::BrightMagenta => Color::BrightMagenta,
        Hue::BrightCyan => Color::BrightCyan,
    };
    text.color(color).to_string()
}

} // verus!
