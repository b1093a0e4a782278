use vstd::prelude::*;

verus! {

/// The ways in which an operation of this library can fail.
#[derive(Debug)]
pub enum FoliaError {
    /// Malformed or unrecognised wire input; the message holds the offending text.
    ParseError(String),
    /// An item was handed to a store before it was ready for storage.
    EncodeError(String),
    /// A store ran out of representable keys.
    InternalError(String),
}

impl FoliaError {
    /// The message carried by the error.
    pub fn message(&self) -> (r: &String)
        ensures
            r@ == self.spec_message(),
    {
        match self {
            FoliaError::ParseError(m) => m,
            FoliaError::EncodeError(m) => m,
            FoliaError::InternalError(m) => m,
        }
    }

    pub open spec fn spec_message(&self) -> Seq<char> {
        match self {
            FoliaError::ParseError(m) => m@,
            FoliaError::EncodeError(m) => m@,
            FoliaError::InternalError(m) => m@,
        }
    }
}

} // verus!
