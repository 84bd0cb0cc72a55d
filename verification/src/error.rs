//! The ways in which an operation of this library can fail.

use vstd::prelude::*;

verus! {

/// Why an operation did not go through.
#[derive(Debug, Clone, Copy, PartialEq, Eq, Structural)]
pub enum TipsError {
    /// The edited document does not hold the separator line.
    MalformedDocument,
    /// The metadata block of the edited document is no metadata.
    InvalidMetadata,
    /// The user left the starter template as it was.
    Unchanged,
    /// No tip of the collection has the id that was asked for.
    NotFound,
    /// The search pattern is no regular expression.
    InvalidPattern,
    /// The part of a tip to search in was named by an unknown word.
    UnknownPart,
    /// The collection offers no next id: it holds no id yet, or the
    /// greatest one has no successor.
    NoNextId,
    /// The user did not confirm the removal.
    Declined,
}

/// What the user is told of a failure, where `offending` is the text
/// that it was found on: the document, the metadata block, the id or the
/// pattern as it was given, or the word that names no part.
pub open spec fn message_of(error: TipsError, offending: Seq<char>) -> Seq<char> {
    match error {
        TipsError::MalformedDocument => "Unable to find split pattern!\n"@ + offending,
        TipsError::InvalidMetadata => "Error deserialize metadata "@ + offending,
        TipsError::Unchanged => "Aborting. Contents no different from template."@,
        TipsError::NotFound => "Error id "@ + offending + " not found in DB"@,
        TipsError::InvalidPattern => "Unable to construct Regex with pattern "@ + offending,
        TipsError::UnknownPart => "Part not implemented! "@ + offending,
        TipsError::NoNextId => "Error unable to get next id from tips vector"@,
        TipsError::Declined => "Aborted by user"@,
    }
}

impl TipsError {
    /// What the user is told of the failure. `offending` is the text that
    /// the failure was found on; it is passed over where the failure has
    /// none.
    pub fn message(&self, offending: &str) -> (text: String)
        ensures
            text@ == message_of(*self, offending@),
    {
        match self {
            TipsError::MalformedDocument => {
                let mut text = "Unable to find split pattern!\n".to_owned();
                text.append(offending);
                text
            },
            TipsError::InvalidMetadata => {
                let mut text = "Error deserialize metadata ".to_owned();
                text.append(offending);
                text
            },
            TipsError::Unchanged => "Aborting. Contents no different from template.".to_owned(),
            TipsError::NotFound => {
                let mut text = "Error id ".to_owned();
                text.append(offending);
                text.append(" not found in DB");
                text
            },
            TipsError::InvalidPattern => {
                let mut text = "Unable to construct Regex with pattern ".to_owned();
                text.append(offending);
                text
            },
            TipsError::UnknownPart => {
                let mut text = "Part not implemented! ".to_owned();
                text.append(offending);
                text
            },
            TipsError::NoNextId => "Error unable to get next id from tips vector".to_owned(),
            TipsError::Declined => "Aborted by user".to_owned(),
        }
    }
}

} // verus!
