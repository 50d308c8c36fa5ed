use vstd::prelude::*;

verus! {

/// The kinds of error that loading a model can report.
#[derive(Debug, Clone, Copy, PartialEq, Eq, Structural)]
pub enum ErrorKind {
    /// TensorFlow Lite could not read a model from the given source.
    FailedToLoadModel,
}

/// An error of this crate, identified by its [`ErrorKind`].
#[derive(Debug, Clone, Copy, PartialEq, Eq, Structural)]
pub struct Error {
    kind: ErrorKind,
}

impl Error {
    /// The kind of this error, as contracts see it.
    pub closed spec fn kind_of(self) -> ErrorKind {
        self.kind
    }

    /// Creates an error of the given kind.
    pub fn new(kind: ErrorKind) -> (e: Error)
        ensures
            e.kind_of() == kind,
    {
        Error { kind }
    }

    /// Returns the kind of this error.
    pub fn kind(&self) -> (k: ErrorKind)
        ensures
            k == self.kind_of(),
    {
        self.kind
    }
}

} // verus!
