//! Errors of the archive reader.

use crate::io::IoError;
use vstd::prelude::*;

verus! {

/// Why an archive, or one attribute stream in it, could not be read.
#[derive(Debug, PartialEq, Eq)]
pub enum Error {
    /// The bytes are there but do not make sense: what is wrong, and where.
    Read(String, usize),
    /// The bytes ended too soon.
    IO(IoError),
}

/// An [`Error`] with its message as a sequence of characters.
pub enum ErrorView {
    Read(Seq<char>, usize),
    IO(IoError),
}

impl View for Error {
    type V = ErrorView;

    open spec fn view(&self) -> ErrorView {
        match *self {
            Error::Read(message, position) => ErrorView::Read(message@, position),
            Error::IO(e) => ErrorView::IO(e),
        }
    }
}

impl Error {
    /// A second error that says the same.
    pub fn duplicate(&self) -> (copy: Error)
        ensures
            copy@ == self@,
    {
        match self {
            Error::Read(message, position) => Error::Read(message.clone(), *position),
            Error::IO(e) => Error::IO(*e),
        }
    }
}

} // verus!
