//! Emphasis for a line that goes to a terminal.
//!
//! A line is emphasised by ANSI escape sequences around it: one that sets the
//! colour, one that sets bold, and at the end one that resets both. Whether a
//! terminal is there to take them is found out by the `console` crate, so a
//! line comes back either wrapped in this way or as it went in.

use vstd::prelude::*;

verus! {

/// `text` in bold green, as an ANSI terminal takes it.
pub open spec fn green_bold(text: Seq<char>) -> Seq<char> {
    "\x1b[32m\x1b[1m"@ + text + "\x1b[0m"@
}

/// `text` in bold blue, as an ANSI terminal takes it.
pub open spec fn blue_bold(text: Seq<char>) -> Seq<char> {
    "\x1b[34m\x1b[1m"@ + text + "\x1b[0m"@
}

/// Formats `console::style(text).green().bold()`.
///
/// Trusted, not proved: where `console` has colours switched on for standard
/// output it writes the escape sequences for a green foreground and for bold,
/// then `text`, then the reset sequence; where it has them switched off it
/// writes `text` alone. Which of the two holds depends on the terminal and on
/// the environment, so the contract allows both.
#[verifier::external_body]
pub(crate) fn in_green_bold(text: &str) -> (line: String)
    ensures
        line@ == text@ || line@ == green_bold(text@),
{
    format!("{}", console::style(text).green().bold())
}

/// Formats `console::style(text).blue().bold()`.
///
/// Trusted, not proved: where `console` has colours switched on for standard
/// output it writes the escape sequences for a blue foreground and for bold,
/// then `text`, then the reset sequence; where it has them switched off it
/// writes `text` alone. Which of the two holds depends on the terminal and on
/// the environment, so the contract allows both.
#[verifier::external_body]
pub(crate) fn in_blue_bold(text: &str) -> (line: String)
    ensures
        line@ == text@ || line@ == blue_bold(text@),
{
    format!("{}", console::style(text).blue().bold())
}

} // verus!
