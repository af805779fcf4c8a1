//! The error that the library's operations report.

use vstd::prelude::*;
use crate::repr::Repr;

verus! {

/// The kinds of errors.
#[derive(Copy, Clone, Debug, PartialEq, Eq, Structural)]
pub enum ErrorKind {
    TypeError,
    NotImplemented,
    Unknown,
}

/// What an `Error` stands for.
pub struct ErrorView {
    pub kind: ErrorKind,
    pub message: Seq<char>,
}

/// An error: its kind, and a message for the reader.
#[derive(Debug, PartialEq)]
pub struct Error {
    pub kind: ErrorKind,
    pub message: String,
}

impl Repr for Error {
    type V = ErrorView;

    open spec fn repr(&self) -> ErrorView {
        ErrorView { kind: self.kind, message: self.message@ }
    }
}

impl Clone for Error {
    fn clone(&self) -> (e: Error)
        ensures
            e.repr() == self.repr(),
    {
        Error { kind: self.kind, message: self.message.clone() }
    }
}

impl Error {
    /// The message of the error.
    pub fn to_string(&self) -> (r: String)
        ensures
            r@ == self.message@,
    {
        self.message.clone()
    }
}

} // verus!
