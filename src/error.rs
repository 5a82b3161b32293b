//! Categorised failures.
use vstd::prelude::*;

verus! {

/// The category of a failure.
#[derive(Clone, Copy, Debug, PartialEq, Eq, Structural)]
pub enum ErrorKind {
    /// A grammar module could not be loaded.
    LoadError,
    /// A grammar module lacks its entry point.
    SymbolError,
    /// A language name is not registered.
    NotFoundError,
    /// The registry could not be acquired.
    LockError,
    /// A parse was attempted before a language was set.
    NoLanguageError,
    /// A query pattern is malformed.
    SyntaxError,
    /// An argument has the wrong shape.
    ArgumentError,
}

/// A categorised failure with a message.
#[derive(Clone, Debug)]
pub struct Error {
    pub kind: ErrorKind,
    pub message: String,
}

impl Error {
    pub fn new(kind: ErrorKind, message: String) -> (r: Error)
        ensures
            r.kind == kind,
            r.message@ == message@,
    {
        Error { kind, message }
    }

    pub fn kind(&self) -> (r: ErrorKind)
        ensures
            r == self.kind,
    {
        self.kind
    }

    pub fn message(&self) -> (r: &str)
        ensures
            r@ == self.message@,
    {
        self.message.as_str()
    }
}

} // verus!
