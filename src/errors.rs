use vstd::prelude::*;

verus! {

/// Why an operation on a note was rejected.
#[derive(Debug, Clone, Copy, PartialEq, Eq, Structural)]
pub enum NotesError {
    /// The presented authority is not the note's recorded owner.
    Unauthorized,
    /// The content is longer than the limit, in bytes.
    ContentTooLong,
    /// The content has no bytes.
    ContentEmpty,
    /// A note already stands at the derived address.
    AddressAlreadyOccupied,
    /// No note stands at the derived address.
    NotFound,
    /// No program address could be derived from the seeds.
    NoViableAddress,
    /// The runtime offered no clock.
    ClockUnavailable,
}

/// The human-readable text that goes with each error.
pub open spec fn error_message(e: NotesError) -> Seq<char> {
    match e {
        NotesError::Unauthorized => "You are not authorized to perform this action."@,
        NotesError::ContentTooLong => "Content is too long. Maximum 1000 characters."@,
        NotesError::ContentEmpty => "Content cannot be empty."@,
        NotesError::AddressAlreadyOccupied => "A note already exists at this address."@,
        NotesError::NotFound => "No note exists at this address."@,
        NotesError::NoViableAddress => "No program address could be derived for this note."@,
        NotesError::ClockUnavailable => "The clock is not available."@,
    }
}

impl NotesError {
    pub fn message(&self) -> (r: &'static str)
        ensures
            r@ == error_message(*self),
    {
        match self {
            NotesError::Unauthorized => "You are not authorized to perform this action.",
            NotesError::ContentTooLong => "Content is too long. Maximum 1000 characters.",
            NotesError::ContentEmpty => "Content cannot be empty.",
            NotesError::AddressAlreadyOccupied => "A note already exists at this address.",
            NotesError::NotFound => "No note exists at this address.",
            NotesError::NoViableAddress => "No program address could be derived for this note.",
            NotesError::ClockUnavailable => "The clock is not available.",
        }
    }
}

} // verus!
