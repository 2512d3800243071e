//! The error of the runtime, which embeds the errors of its parts.

use crate::bytecode;
use crate::classfile;
use crate::io::IoError;
use crate::jimage;
use vstd::prelude::*;

verus! {

/// Why the runtime could not do what it was asked to.
#[derive(Debug, PartialEq, Eq)]
pub enum Error {
    /// No part of the classpath has this resource.
    NotFound(String),
    /// An archive could not be read.
    JImageError(jimage::Error),
    /// A classfile could not be read, or a constant in it not be had.
    ClassFile(classfile::Error),
    /// A class cannot be defined as its classfile describes it.
    ClassLoadError(String),
    /// A class has no method of this name.
    NoSuchMethod(String),
    /// The code of a method could not be decoded.
    Bytecode(bytecode::Error),
    /// A byte source failed.
    IOError(IoError),
    /// The method of this name is native, and native methods cannot be run.
    NativeMethod(String),
    /// Nothing is known yet of the file `name` in `directory`, on which the
    /// outcome depends. Once the file has been looked for and the finding
    /// recorded, the same request can be made again.
    Unread { directory: String, name: String },
}

/// An [`Error`] with its texts as sequences of characters.
pub enum ErrorView {
    NotFound(Seq<char>),
    JImageError(jimage::ErrorView),
    ClassFile(classfile::ErrorView),
    ClassLoadError(Seq<char>),
    NoSuchMethod(Seq<char>),
    Bytecode(bytecode::Error),
    IOError(IoError),
    NativeMethod(Seq<char>),
    Unread { directory: Seq<char>, name: Seq<char> },
}

impl View for Error {
    type V = ErrorView;

    open spec fn view(&self) -> ErrorView {
        match *self {
            Error::NotFound(resource) => ErrorView::NotFound(resource@),
            Error::JImageError(e) => ErrorView::JImageError(e@),
            Error::ClassFile(e) => ErrorView::ClassFile(e@),
            Error::ClassLoadError(message) => ErrorView::ClassLoadError(message@),
            Error::NoSuchMethod(name) => ErrorView::NoSuchMethod(name@),
            Error::Bytecode(e) => ErrorView::Bytecode(e),
            Error::IOError(e) => ErrorView::IOError(e),
            Error::NativeMethod(name) => ErrorView::NativeMethod(name@),
            Error::Unread { directory, name } => ErrorView::Unread {
                directory: directory@,
                name: name@,
            },
        }
    }
}

impl Error {
    /// A second error that says the same.
    pub fn duplicate(&self) -> (copy: Error)
        ensures
            copy@ == self@,
    {
        match self {
            Error::NotFound(resource) => Error::NotFound(resource.clone()),
            Error::JImageError(e) => Error::JImageError(e.duplicate()),
            Error::ClassFile(e) => Error::ClassFile(e.duplicate()),
            Error::ClassLoadError(message) => Error::ClassLoadError(message.clone()),
            Error::NoSuchMethod(name) => Error::NoSuchMethod(name.clone()),
            Error::Bytecode(e) => Error::Bytecode(*e),
            Error::IOError(e) => Error::IOError(*e),
            Error::NativeMethod(name) => Error::NativeMethod(name.clone()),
            Error::Unread { directory, name } => Error::Unread {
                directory: directory.clone(),
                name: name.clone(),
            },
        }
    }
}

impl From<IoError> for Error {
    fn from(x: IoError) -> (e: Error) {
        Error::IOError(x)
    }
}

impl vstd::std_specs::convert::FromSpecImpl<IoError> for Error {
    open spec fn obeys_from_spec() -> bool {
        true
    }

    open spec fn from_spec(x: IoError) -> Error {
        Error::IOError(x)
    }
}

impl From<jimage::Error> for Error {
    fn from(x: jimage::Error) -> (e: Error) {
        Error::JImageError(x)
    }
}

impl vstd::std_specs::convert::FromSpecImpl<jimage::Error> for Error {
    open spec fn obeys_from_spec() -> bool {
        true
    }

    open spec fn from_spec(x: jimage::Error) -> Error {
        Error::JImageError(x)
    }
}

impl From<classfile::Error> for Error {
    fn from(x: classfile::Error) -> (e: Error) {
        Error::ClassFile(x)
    }
}

impl vstd::std_specs::convert::FromSpecImpl<classfile::Error> for Error {
    open spec fn obeys_from_spec() -> bool {
        true
    }

    open spec fn from_spec(x: classfile::Error) -> Error {
        Error::ClassFile(x)
    }
}

impl From<bytecode::Error> for Error {
    fn from(x: bytecode::Error) -> (e: Error) {
        Error::Bytecode(x)
    }
}

impl vstd::std_specs::convert::FromSpecImpl<bytecode::Error> for Error {
    open spec fn obeys_from_spec() -> bool {
        true
    }

    open spec fn from_spec(x: bytecode::Error) -> Error {
        Error::Bytecode(x)
    }
}

} // verus!
