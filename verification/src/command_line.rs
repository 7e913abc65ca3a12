//! What the terminal side of the agent decides: the colour of a status
//! line and the meaning of the operator's answer to the safety question.

use vstd::prelude::*;
use crate::text::same_text;

verus! {

/// The kind of a status line.
#[derive(Debug, Clone, Copy, PartialEq, Eq, Structural)]
pub enum PrintCommand {
    /// The agent calls the generative backend.
    AICall,
    /// The agent builds, runs or probes generated code.
    UnitTest,
    /// Something went wrong.
    Issue,
}

/// The colours in which status lines are printed.
#[derive(Debug, Clone, Copy, PartialEq, Eq, Structural)]
pub enum Colour {
    Cyan,
    Magenta,
    Red,
}

impl PrintCommand {
    /// The colour of a statement of this kind.
    pub open spec fn colour_of(self) -> Colour {
        match self {
            PrintCommand::AICall => Colour::Cyan,
            PrintCommand::UnitTest => Colour::Magenta,
            PrintCommand::Issue => Colour::Red,
        }
    }

    /// The colour in which a statement of this kind is printed.
    pub fn statement_colour(&self) -> (colour: Colour)
        ensures
            colour == self.colour_of(),
    {
        match self {
            PrintCommand::AICall => Colour::Cyan,
            PrintCommand::UnitTest => Colour::Magenta,
            PrintCommand::Issue => Colour::Red,
        }
    }
}

/// What an answer to the safety question means once it is trimmed and in
/// lower case: consent, refusal, or nothing that can be understood.
pub open spec fn confirmation_meaning(answer: Seq<char>) -> Option<bool> {
    if answer == "1"@ || answer == "ok"@ || answer == "y"@ {
        Some(true)
    } else if answer == "2"@ || answer == "no"@ || answer == "n"@ {
        Some(false)
    } else {
        None
    }
}

/// Reads a trimmed, lower-case answer to the safety question.
///
/// `1`, `ok` and `y` give consent, `2`, `no` and `n` refuse, and anything
/// else is no answer, so the question has to be asked again.
pub fn interpret_confirmation(answer: &str) -> (meaning: Option<bool>)
    ensures
        meaning == confirmation_meaning(answer@),
{
    if same_text(answer, "1") || same_text(answer, "ok") || same_text(answer, "y") {
        Some(true)
    } else if same_text(answer, "2") || same_text(answer, "no") || same_text(answer, "n") {
        Some(false)
    } else {
        None
    }
}

/// What `str::trim` leaves of a text: the text without the white space at
/// its two ends.
pub uninterp spec fn trimmed(text: Seq<char>) -> Seq<char>;

/// What `str::to_lowercase` makes of a text: the same text in lower case.
pub uninterp spec fn lowercased(text: Seq<char>) -> Seq<char>;

/// Calls `str::trim`. The contract only gives the result its name; what
/// counts as white space is left to the standard library.
#[verifier::external_body]
fn trim_text(text: &str) -> (inner: &str)
    ensures
        inner@ == trimmed(text@),
{
    text.trim()
}

/// Calls `str::to_lowercase`. The contract only gives the result its
/// name; the case mapping is left to the standard library.
#[verifier::external_body]
fn lowercase_text(text: &str) -> (lower: String)
    ensures
        lower@ == lowercased(text@),
{
    text.to_lowercase()
}

/// Reads a line that the operator typed in answer to the safety question:
/// the line is trimmed, put in lower case and then interpreted.
pub fn confirmation_from_reply(reply: &str) -> (meaning: Option<bool>)
    ensures
        meaning == confirmation_meaning(lowercased(trimmed(reply@))),
{
    let lower = lowercase_text(trim_text(reply));
    interpret_confirmation(lower.as_str())
}

} // verus!
