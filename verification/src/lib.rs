//! The core of a small class-loading runtime: a decoder for bytecode, a parser
//! for classfiles, a reader for packed module archives, a composable classpath
//! and the loader that ties them together.
//!
//! Every function here works on plain values and states its result in a
//! contract. Reading files, mapping archives into memory and logging are left
//! to the caller.

pub mod bytecode;
pub mod bytes;
pub mod class_path;
pub mod classfile;
pub mod error;
pub mod io;
pub mod jimage;
pub mod runtime;
pub mod text;
pub mod views;

pub use error::Error;
