//! What a byte source in memory can report.

use vstd::prelude::*;

verus! {

/// Why a read from a byte source did not deliver.
#[derive(Clone, Copy, Debug, PartialEq, Eq, Structural)]
pub enum IoError {
    /// The source ended before the bytes asked for were there.
    UnexpectedEof,
}

} // verus!
