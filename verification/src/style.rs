//! Colours of the terminal output.

use vstd::prelude::*;
use vstd::string::*;
use crate::text::{decimal, decimal_text};

verus! {

/// A colour as red, green and blue.
#[derive(Clone, Copy, Debug, PartialEq, Eq, Structural)]
pub struct Rgb(pub u8, pub u8, pub u8);

/// Headings.
#[verifier::allow_in_spec]
pub fn mauve() -> Rgb
    returns
        Rgb(203, 166, 247),
{
    Rgb(203, 166, 247)
}

/// Errors and conflicts.
#[verifier::allow_in_spec]
pub fn red() -> Rgb
    returns
        Rgb(243, 139, 168),
{
    Rgb(243, 139, 168)
}

/// What the remote changed, and removals.
#[verifier::allow_in_spec]
pub fn peach() -> Rgb
    returns
        Rgb(250, 179, 135),
{
    Rgb(250, 179, 135)
}

/// Warnings and local changes.
#[verifier::allow_in_spec]
pub fn yellow() -> Rgb
    returns
        Rgb(249, 226, 175),
{
    Rgb(249, 226, 175)
}

/// Success.
#[verifier::allow_in_spec]
pub fn green() -> Rgb
    returns
        Rgb(166, 227, 161),
{
    Rgb(166, 227, 161)
}

/// Untracked files.
#[verifier::allow_in_spec]
pub fn sky() -> Rgb
    returns
        Rgb(137, 220, 235),
{
    Rgb(137, 220, 235)
}

/// The recovery phrase.
#[verifier::allow_in_spec]
pub fn lavender() -> Rgb
    returns
        Rgb(180, 190, 254),
{
    Rgb(180, 190, 254)
}

/// Plain rows.
#[verifier::allow_in_spec]
pub fn text() -> Rgb
    returns
        Rgb(205, 214, 244),
{
    Rgb(205, 214, 244)
}

/// Hints and rules.
#[verifier::allow_in_spec]
pub fn subtext1() -> Rgb
    returns
        Rgb(186, 194, 222),
{
    Rgb(186, 194, 222)
}

/// Whether output is coloured: only on a terminal, and not where `NO_COLOR` is
/// set.
pub fn enabled(no_color_set: bool, stdout_is_terminal: bool) -> (out: bool)
    ensures
        out == (!no_color_set && stdout_is_terminal),
{
    !no_color_set && stdout_is_terminal
}

/// The three parts of a colour as they stand in an escape sequence.
pub open spec fn rgb_text(color: Rgb) -> Seq<char> {
    decimal_text(color.0 as nat) + ";"@ + decimal_text(color.1 as nat) + ";"@ + decimal_text(
        color.2 as nat,
    )
}

/// `text` in the given colour, or as it is where colours are off. `lead` is what
/// the escape sequence starts with.
pub open spec fn styled(enabled: bool, lead: Seq<char>, color: Rgb, text: Seq<char>) -> Seq<char> {
    if enabled {
        lead + rgb_text(color) + "m"@ + text + "\x1b[0m"@
    } else {
        text
    }
}

fn style(enabled: bool, lead: &str, color: Rgb, text: &str) -> (out: String)
    ensures
        out@ == styled(enabled, lead@, color, text@),
{
    if !enabled {
        return String::from_str(text);
    }
    let mut out = String::from_str(lead);
    out.append(decimal(color.0 as u128).as_str());
    out.append(";");
    out.append(decimal(color.1 as u128).as_str());
    out.append(";");
    out.append(decimal(color.2 as u128).as_str());
    out.append("m");
    out.append(text);
    out.append("\x1b[0m");
    assert(out@ =~= styled(enabled, lead@, color, text@));
    out
}

/// `text` in the given colour, or as it is where colours are off.
pub fn paint(enabled: bool, color: Rgb, text: &str) -> (out: String)
    ensures
        out@ == styled(enabled, "\x1b[38;2;"@, color, text@),
{
    style(enabled, "\x1b[38;2;", color, text)
}

/// `text` in bold and in the given colour, or as it is where colours are off.
pub fn bold(enabled: bool, color: Rgb, text: &str) -> (out: String)
    ensures
        out@ == styled(enabled, "\x1b[1;38;2;"@, color, text@),
{
    style(enabled, "\x1b[1;38;2;", color, text)
}

} // verus!
