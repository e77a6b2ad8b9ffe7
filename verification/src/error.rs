//! The error of the HTTP range reader.

use vstd::prelude::*;

verus! {

/// What sort of failure a [`ReadError`] reports.
#[derive(Copy, Clone, Debug, PartialEq, Eq, Structural)]
pub enum ErrorKind {
    /// A seek that leaves the range of a 64-bit offset.
    InvalidInput,
    /// A reply that is no partial content.
    InvalidData,
    /// A reply body that is shorter or longer than the range asked for.
    UnexpectedEof,
    /// A read that the user cancelled.
    Interrupted,
    /// A failure below this library: the request or the transfer of its reply.
    Other,
}

/// A failed read or seek: its kind and a message for the user.
#[derive(Debug)]
pub struct ReadError {
    pub kind: ErrorKind,
    pub message: String,
}

impl ReadError {
    /// The kind of the failure.
    pub fn kind(&self) -> (r: ErrorKind)
        ensures
            r == self.kind,
    {
        self.kind
    }

    /// Whether the error is of the given kind and says the given text.
    pub open spec fn says(self, kind: ErrorKind, text: Seq<char>) -> bool {
        self.kind == kind && self.message@ == text
    }
}

} // verus!
