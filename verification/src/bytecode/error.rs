//! Errors of the bytecode decoder.

use crate::io::IoError;
use vstd::prelude::*;

verus! {

/// Why no instruction could be decoded.
#[derive(Clone, Copy, Debug, PartialEq, Eq, Structural)]
pub enum Error {
    /// The table declares no instruction for this opcode.
    UnknownBytecode(u8),
    /// The byte source ended, before the opcode or within the operand.
    IO(IoError),
}

} // verus!
