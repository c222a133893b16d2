//! Terminal styles of the reports

use vstd::prelude::*;

verus! {

/// The styles in which parts of a report are painted
#[derive(Clone, Copy, Debug, PartialEq, Eq, Structural)]
pub enum Tint {
    /// Green text
    Green,
    /// Yellow text
    Yellow,
    /// Red text
    Red,
    /// Green, dimmed text
    GreenDimmed,
    /// Dimmed text in the default colour
    Dimmed,
    /// Blue, underlined text
    BlueUnderlined,
    /// Blue, dimmed and underlined text
    BlueDimmedUnderlined,
}

/// The escape sequence that switches the style `tint` on.
pub open spec fn prefix(tint: Tint) -> Seq<char> {
    match tint {
        Tint::Green => "\x1b[32m"@,
        Tint::Yellow => "\x1b[33m"@,
        Tint::Red => "\x1b[31m"@,
        Tint::GreenDimmed => "\x1b[2;32m"@,
        Tint::Dimmed => "\x1b[2m"@,
        Tint::BlueUnderlined => "\x1b[4;34m"@,
        Tint::BlueDimmedUnderlined => "\x1b[2;4;34m"@,
    }
}

/// The escape sequence that switches every style off.
pub open spec fn suffix() -> Seq<char> {
    "\x1b[0m"@
}

/// The characters that show `text` in the style `tint` on an ANSI terminal:
/// the text between the escape sequences that switch the style on and off.
pub open spec fn painted(tint: Tint, text: Seq<char>) -> Seq<char> {
    prefix(tint) + text + suffix()
}

/// Paints `text` in the style `tint`.
///
/// Builds the `ansi_term::Style` that `tint` stands for, calls its `paint`
/// and renders the painted string through `to_string`. The contract claims
/// what the crate writes for a style that is not plain: the escape sequence
/// made of the style's codes, dimmed `2` and underline `4` before the code
/// of the colour, then the text as it is, then the reset sequence.
#[verifier::external_body]
pub(crate) fn paint(tint: Tint, text: &str) -> (out: String)
    ensures
        out@ == painted(tint, text@),
{
    let style = match tint {
        Tint::Green => ansi_term::Color::Green.normal(),
        Tint::Yellow => ansi_term::Color::Yellow.normal(),
        Tint::Red => ansi_term::Color::Red.normal(),
        Tint::GreenDimmed => ansi_term::Color::Green.dimmed(),
        Tint::Dimmed => ansi_term::Style::new().dimmed(),
        Tint::BlueUnderlined => ansi_term::Color::Blue.underline(),
        Tint::BlueDimmedUnderlined => ansi_term::Color::Blue.dimmed().underline(),
    };
    style.paint(text).to_string()
}

} // verus!
