//! Failures the ranking core reports or passes on.

use vstd::prelude::*;

verus! {

/// Why an operation of the collection could not deliver.
#[derive(Debug, Clone, Copy, PartialEq, Eq, Structural)]
pub enum CollectionError {
    /// Fewer than two players exist, so nobody can be paired.
    InsufficientPopulation,
    /// A referenced player is missing from the rating store.
    NotFound,
    /// The rating store could not be reached; the operation was abandoned.
    StoreUnavailable,
}

impl CollectionError {
    /// The text of `message`, character by character.
    pub open spec fn message_text(self) -> Seq<char> {
        match self {
            CollectionError::InsufficientPopulation => "fewer than two players to pair"@,
            CollectionError::NotFound => "player not found"@,
            CollectionError::StoreUnavailable => "rating store unavailable"@,
        }
    }

    /// A short description for logs and responses.
    pub fn message(&self) -> (s: String)
        ensures
            s@ == self.message_text(),
    {
        match self {
            CollectionError::InsufficientPopulation => "fewer than two players to pair".to_owned(),
            CollectionError::NotFound => "player not found".to_owned(),
            CollectionError::StoreUnavailable => "rating store unavailable".to_owned(),
        }
    }
}

} // verus!
