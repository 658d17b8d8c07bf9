use vstd::prelude::*;

verus! {

/// The kind of failure a request can end in.
#[derive(Debug, Clone, PartialEq, Eq)]
pub enum ErrorKind {
    /// The caller's input failed validation.
    InvalidData,
    /// The HTTP transport failed; carries the transport's error text.
    ApiError(String),
    /// Request construction failed before any call was made.
    Internal,
}

/// An error returned to the caller, with a human-readable message.
#[derive(Debug, Clone, PartialEq, Eq)]
pub struct Error {
    pub message: String,
    pub kind: ErrorKind,
}

impl Error {
    pub fn new(message: &str, kind: ErrorKind) -> (r: Error)
        ensures
            r.message@ == message@,
            r.kind == kind,
    {
        Error { message: message.to_owned(), kind }
    }
}

} // verus!
