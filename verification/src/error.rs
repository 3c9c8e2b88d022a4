//! The failures that the engine reports to its caller.

use vstd::prelude::*;

verus! {

/// Why an operation was refused or could not be carried out.  Every failure is
/// handed back to the caller; none of them ends the process.
#[derive(Debug, PartialEq, Eq)]
pub enum EngineError {
    /// The custom session type was selected, which has no query input to run.
    CustomUnsupported,
    /// The selection yielded no word, so there is nothing to review.
    EmptySelection,
    /// No stored word has the given id.
    WordNotFound(i32),
    /// The current word has to be graded before the session moves on.
    NotGraded,
    /// The current word was graded already during this visit.
    AlreadyGraded,
    /// The definition has to be revealed before the word is graded.
    NotRevealed,
    /// The database refused a statement; the text is its own message.
    Storage(String),
}

/// The text shown for each failure.
pub open spec fn message_text(e: EngineError) -> Seq<char> {
    match e {
        EngineError::CustomUnsupported => "Custom session requires query input"@,
        EngineError::EmptySelection => "No words to review"@,
        EngineError::WordNotFound(_) => "Word not found in the store"@,
        EngineError::NotGraded => "Grade the word before moving on"@,
        EngineError::AlreadyGraded => "The word is graded already"@,
        EngineError::NotRevealed => "Reveal the definition before grading"@,
        EngineError::Storage(text) => text@,
    }
}

impl EngineError {
    /// The message to show to the user.
    pub fn message(&self) -> (text: String)
        ensures
            text@ == message_text(*self),
    {
        match self {
            EngineError::CustomUnsupported => "Custom session requires query input".to_owned(),
            EngineError::EmptySelection => "No words to review".to_owned(),
            EngineError::WordNotFound(_) => "Word not found in the store".to_owned(),
            EngineError::NotGraded => "Grade the word before moving on".to_owned(),
            EngineError::AlreadyGraded => "The word is graded already".to_owned(),
            EngineError::NotRevealed => "Reveal the definition before grading".to_owned(),
            EngineError::Storage(text) => text.clone(),
        }
    }
}

} // verus!
