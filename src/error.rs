use vstd::prelude::*;
use vstd::string::*;

verus! {

/// The kinds of failure, each with a message for the user.
#[derive(Debug)]
pub enum NoteError {
    /// A missing or unknown command-line argument.
    Usage(String),
    /// No note has the requested identifier.
    NotFound,
    /// Reading or writing the store failed.
    Io(String),
    /// The store's text is not a valid note collection.
    Format(String),
}

impl NoteError {
    /// The message shown to the user.
    pub fn message(&self) -> (r: String)
        ensures
            self is NotFound ==> r@ == "note not found"@,
            self matches NoteError::Usage(m) ==> r@ == m@,
            self matches NoteError::Io(m) ==> r@ == m@,
            self matches NoteError::Format(m) ==> r@ == m@,
    {
        match self {
            NoteError::Usage(m) => m.clone(),
            NoteError::NotFound => String::from_str("note not found"),
            NoteError::Io(m) => m.clone(),
            NoteError::Format(m) => m.clone(),
        }
    }
}

} // verus!
