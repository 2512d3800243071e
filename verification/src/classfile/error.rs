//! Errors of the classfile parser and of constant-pool access.

use crate::io::IoError;
use vstd::prelude::*;

verus! {

/// Why a classfile could not be read, or a constant not be had.
#[derive(Debug, PartialEq, Eq)]
pub enum Error {
    /// The bytes are there but do not make a classfile: what is wrong, and
    /// at which offset.
    ReadError(String, usize),
    /// A constant is not of the variant that was asked for.
    UnexpectedConstant(String),
    /// The constant pool has no entry at this index.
    ConstantNotFound(u16),
    /// A required attribute is absent.
    AttributeNotFound(String),
    /// The bytes ended too soon.
    IO(IoError),
}

/// An [`Error`] with its texts as sequences of characters.
pub enum ErrorView {
    ReadError(Seq<char>, usize),
    UnexpectedConstant(Seq<char>),
    ConstantNotFound(u16),
    AttributeNotFound(Seq<char>),
    IO(IoError),
}

impl View for Error {
    type V = ErrorView;

    open spec fn view(&self) -> ErrorView {
        match *self {
            Error::ReadError(message, position) => ErrorView::ReadError(message@, position),
            Error::UnexpectedConstant(message) => ErrorView::UnexpectedConstant(message@),
            Error::ConstantNotFound(index) => ErrorView::ConstantNotFound(index),
            Error::AttributeNotFound(name) => ErrorView::AttributeNotFound(name@),
            Error::IO(e) => ErrorView::IO(e),
        }
    }
}

impl Error {
    /// A second error that says the same.
    pub fn duplicate(&self) -> (copy: Error)
        ensures
            copy@ == self@,
    {
        match self {
            Error::ReadError(message, position) => Error::ReadError(message.clone(), *position),
            Error::UnexpectedConstant(message) => Error::UnexpectedConstant(message.clone()),
            Error::ConstantNotFound(index) => Error::ConstantNotFound(*index),
            Error::AttributeNotFound(name) => Error::AttributeNotFound(name.clone()),
            Error::IO(e) => Error::IO(*e),
        }
    }
}

} // verus!
