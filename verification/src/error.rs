//! Errors that end the life of a node.
use vstd::prelude::*;

verus! {

/// What went wrong.
#[derive(Debug, Clone, Copy, PartialEq, Eq, Hash, Structural)]
pub enum ErrorKind {
    /// The service no longer knows the node: its inbox is closed.
    ServiceDown,
    /// The node has used up its sequence numbers.
    SequenceWrap,
    /// The service has handed out all its local identifiers.
    LocalIdsExhausted,
}

/// A fatal error.
#[derive(Debug, Clone, Copy, PartialEq, Eq, Hash, Structural)]
pub struct Error {
    /// What went wrong.
    pub kind: ErrorKind,
}

impl Error {
    /// Makes the error of the given kind.
    pub fn new(kind: ErrorKind) -> (r: Error)
        ensures
            r.kind == kind,
    {
        Error { kind }
    }

    /// Returns what went wrong.
    pub fn kind(&self) -> (r: ErrorKind)
        ensures
            r == self.kind,
    {
        self.kind
    }

    /// Returns a sentence that says what went wrong.
    pub fn message(&self) -> (r: &'static str)
        ensures
            self.kind == ErrorKind::ServiceDown ==> r@ == "Service down"@,
            self.kind == ErrorKind::SequenceWrap ==> r@ == "Sequence numbers exhausted"@,
            self.kind == ErrorKind::LocalIdsExhausted ==> r@ == "Local node identifiers exhausted"@,
    {
        match self.kind {
            ErrorKind::ServiceDown => "Service down",
            ErrorKind::SequenceWrap => "Sequence numbers exhausted",
            ErrorKind::LocalIdsExhausted => "Local node identifiers exhausted",
        }
    }
}

} // verus!
