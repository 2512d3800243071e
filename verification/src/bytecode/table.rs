//! The table of instructions: for each opcode that is declared, a mnemonic
//! and the format of the operand.

use vstd::prelude::*;

verus! {

/// What follows an opcode in the byte stream.
#[derive(Clone, Copy, Debug, PartialEq, Eq, Structural)]
pub enum Format {
    /// Nothing.
    NoIndex,
    /// One byte: an index.
    Index,
    /// Two bytes: an index, the high byte first.
    WideIndex,
}

impl Format {
    /// The number of bytes of the operand.
    pub open spec fn spec_width(self) -> nat {
        match self {
            Format::NoIndex => 0,
            Format::Index => 1,
            Format::WideIndex => 2,
        }
    }

    /// The number of bytes of the operand.
    pub fn width(self) -> (n: usize)
        ensures
            n == self.spec_width(),
    {
        match self {
            Format::NoIndex => 0,
            Format::Index => 1,
            Format::WideIndex => 2,
        }
    }
}

/// What the table says of one opcode.
#[derive(Clone, Copy, Debug, PartialEq, Eq)]
pub struct Descriptor {
    pub mnemonic: &'static str,
    pub format: Format,
}

/// The number of opcodes.
pub const SIZE: usize = 256;

/// A table under construction. An opcode that was not declared has no
/// descriptor.
pub struct Builder {
    pub table: [Option<Descriptor>; 256],
}

impl Builder {
    /// A table that declares nothing.
    pub fn new() -> (builder: Builder)
        ensures
            forall|opcode: int| 0 <= opcode < 256 ==> builder.table@[opcode] is None,
    {
        let none: Option<Descriptor> = None;
        Builder { table: [none; 256] }
    }

    /// The table with `opcode` declared as given. An earlier declaration of
    /// the same opcode is replaced; all other opcodes stay as they are.
    pub fn build(self, opcode: u8, mnemonic: &'static str, format: Format) -> (builder: Builder)
        ensures
            builder.table@ == self.table@.update(
                opcode as int,
                Some(Descriptor { mnemonic, format }),
            ),
    {
        let mut table = self.table;
        table[opcode as usize] = Some(Descriptor { mnemonic, format });
        Builder { table }
    }
}

/// A finished table: one entry for each opcode.
pub type Table = [Option<Descriptor>; 256];

/// The table of the instructions that the decoder knows by itself.
pub fn standard() -> (table: Table)
    ensures
        table@ == standard_entries(),
{
    let builder = Builder::new().build(0x01, "aconst_null", Format::NoIndex).build(
        0x12,
        "ldc",
        Format::Index,
    ).build(0x19, "aload", Format::Index).build(0xB2, "getstatic", Format::WideIndex).build(
        0xBD,
        "anewarray",
        Format::WideIndex,
    );
    assert(builder.table@ =~= standard_entries());
    builder.table
}

/// The entries of the standard table.
pub open spec fn standard_entries() -> Seq<Option<Descriptor>> {
    Seq::new(
        256,
        |opcode: int|
            if opcode == 0x01 {
                Some(Descriptor { mnemonic: "aconst_null", format: Format::NoIndex })
            } else if opcode == 0x12 {
                Some(Descriptor { mnemonic: "ldc", format: Format::Index })
            } else if opcode == 0x19 {
                Some(Descriptor { mnemonic: "aload", format: Format::Index })
            } else if opcode == 0xB2 {
                Some(Descriptor { mnemonic: "getstatic", format: Format::WideIndex })
            } else if opcode == 0xBD {
                Some(Descriptor { mnemonic: "anewarray", format: Format::WideIndex })
            } else {
                None
            },
    )
}

} // verus!
