//! Colours for the terminal, as `colored` writes them.
//!
//! Whether a text is coloured at all is decided by the environment in which
//! the program runs, so each function states both outcomes.

use crate::text::replaced_all;
use colored::Colorize;
use vstd::prelude::*;

verus! {

/// The sequence that ends a colour.
pub open spec fn reset() -> Seq<char> {
    "\x1b[0m"@
}

/// The sequence that starts the colour with the code `code`.
pub open spec fn start(code: Seq<char>) -> Seq<char> {
    "\x1b["@ + code + "m"@
}

/// `text` in the colour with the code `code`: between the sequence that
/// starts the colour and the one that ends it, with the colour started anew
/// behind each ending sequence that `text` itself holds.
pub open spec fn painted(text: Seq<char>, code: Seq<char>) -> Seq<char> {
    start(code) + replaced_all(text, reset(), reset() + start(code)) + reset()
}

/// Whether `result` is `text` written in the colour with the code `code`:
/// either `text` as it is, where colours are switched off, or `text` painted.
pub open spec fn is_painted(text: Seq<char>, code: Seq<char>, result: Seq<char>) -> bool {
    result == text || result == painted(text, code)
}

/// `colored::Colorize::cyan`, written out: the text in cyan, code 36.
#[verifier::external_body]
pub(crate) fn cyan(text: &str) -> (result: String)
    ensures
        is_painted(text@, "36"@, result@),
{
    text.cyan().to_string()
}

/// `colored::Colorize::purple`, written out: the text in magenta, code 35.
#[verifier::external_body]
pub(crate) fn purple(text: &str) -> (result: String)
    ensures
        is_painted(text@, "35"@, result@),
{
    text.purple().to_string()
}

/// `colored::Colorize::bright_red`, written out: the text in bright red,
/// code 91.
#[verifier::external_body]
pub(crate) fn bright_red(text: &str) -> (result: String)
    ensures
        is_painted(text@, "91"@, result@),
{
    text.bright_red().to_string()
}

} // verus!
