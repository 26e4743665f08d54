//! What the game tells the player.

use crate::emphasis::{blue_bold, green_bold, in_blue_bold, in_green_bold};
use std::cmp::Ordering;
use vstd::prelude::*;

verus! {

/// One thing the game says in answer to a line of input.
#[derive(Clone, Copy, Debug, PartialEq, Eq, Structural)]
pub enum Notice {
    /// The line held no guess.
    InvalidInput,
    /// The guess was below the secret number.
    TooSmall,
    /// The guess was above the secret number.
    TooLarge,
    /// The guess was the secret number.
    Found,
}

/// The words of the title that opens a game.
pub open spec fn title_text() -> Seq<char> {
    "Guess my number!"@
}

impl Notice {
    /// The notice that answers a guess which compared as `comparison`.
    pub open spec fn for_comparison(comparison: Ordering) -> Notice {
        match comparison {
            Ordering::Less => Notice::TooSmall,
            Ordering::Greater => Notice::TooLarge,
            Ordering::Equal => Notice::Found,
        }
    }

    /// The words of the notice.
    pub open spec fn text(self) -> Seq<char> {
        match self {
            Notice::InvalidInput => "invalid input"@,
            Notice::TooSmall => "too small"@,
            Notice::TooLarge => "too large"@,
            Notice::Found => "found it"@,
        }
    }

    /// Whether the notice is shown with emphasis: only the one that ends the
    /// game is.
    pub open spec fn is_emphasized(self) -> bool {
        self == Notice::Found
    }

    /// The notice that answers a guess which compared as `comparison`.
    pub fn of_comparison(comparison: Ordering) -> (notice: Notice)
        ensures
            notice == Notice::for_comparison(comparison),
    {
        match comparison {
            Ordering::Less => Notice::TooSmall,
            Ordering::Greater => Notice::TooLarge,
            Ordering::Equal => Notice::Found,
        }
    }

    /// The words of the notice, without emphasis.
    pub fn words(&self) -> (words: &'static str)
        ensures
            words@ == self.text(),
    {
        match self {
            Notice::InvalidInput => "invalid input",
            Notice::TooSmall => "too small",
            Notice::TooLarge => "too large",
            Notice::Found => "found it",
        }
    }

    /// The line to print for the notice: its words, in bold green when the
    /// notice is emphasised and the terminal takes colours.
    pub fn line(&self) -> (line: String)
        ensures
            !self.is_emphasized() ==> line@ == self.text(),
            self.is_emphasized() ==> line@ == self.text() || line@ == green_bold(self.text()),
    {
        match self {
            Notice::Found => in_green_bold(self.words()),
            _ => self.words().to_owned(),
        }
    }
}

/// The line to print when a game opens: the title, in bold blue when the
/// terminal takes colours.
pub fn title_line() -> (line: String)
    ensures
        line@ == title_text() || line@ == blue_bold(title_text()),
{
    in_blue_bold("Guess my number!")
}

} // verus!
