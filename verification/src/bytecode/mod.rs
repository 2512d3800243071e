//! The bytecode set: its table, and the decoder that reads one instruction
//! at a time from a byte source.

pub mod error;
pub mod table;

use crate::bytes::be_u16_at;
use crate::io::IoError;
use crate::text::decimal;
use crate::text::padded_left;
use crate::text::padded_right;
use crate::text::push_decimal;
use crate::text::push_spaces;
use crate::text::spaces;
use vstd::prelude::*;
use vstd::string::StrSliceExecFns;
use vstd::string::StringExecFns;

pub use error::Error;
pub use table::Builder;
pub use table::Descriptor;
pub use table::Format;
pub use table::Table;

verus! {

/// A decoded instruction: its mnemonic, and its index where it has one.
#[derive(Clone, Copy, Debug, PartialEq, Eq)]
pub struct Bytecode {
    pub mnemonic: &'static str,
    pub index: Option<u16>,
}

/// The instruction at the start of `bytes`, and the number of bytes it
/// takes. The first byte is the opcode and selects the descriptor; the
/// operand follows in the descriptor's format. Bytes that end before the
/// instruction does are an end of stream.
pub open spec fn decode(table: Seq<Option<Descriptor>>, bytes: Seq<u8>) -> Result<
    (Bytecode, nat),
    Error,
> {
    if bytes.len() == 0 {
        Err(Error::IO(IoError::UnexpectedEof))
    } else {
        match table[bytes[0] as int] {
            None => Err(Error::UnknownBytecode(bytes[0])),
            Some(descriptor) => if bytes.len() < 1 + descriptor.format.spec_width() {
                Err(Error::IO(IoError::UnexpectedEof))
            } else {
                Ok(
                    (
                        Bytecode {
                            mnemonic: descriptor.mnemonic,
                            index: match descriptor.format {
                                Format::NoIndex => None,
                                Format::Index => Some(bytes[1] as u16),
                                Format::WideIndex => Some(be_u16_at(bytes, 1)),
                            },
                        },
                        1 + descriptor.format.spec_width(),
                    ),
                )
            },
        }
    }
}

/// The instruction that `descriptor` declares, with the operand bytes
/// `first` and `second` as far as its format has them.
pub open spec fn assembled(descriptor: Descriptor, first: u8, second: u8) -> Bytecode {
    Bytecode {
        mnemonic: descriptor.mnemonic,
        index: match descriptor.format {
            Format::NoIndex => None,
            Format::Index => Some(first as u16),
            Format::WideIndex => Some((first * 0x100 + second) as u16),
        },
    }
}

/// What is left of `bytes` after a read of one instruction from their
/// start. An instruction takes its bytes. An opcode that is not declared
/// takes the one byte that it is. A stream that ends before the instruction
/// does is read to its end.
pub open spec fn left_after(table: Seq<Option<Descriptor>>, bytes: Seq<u8>) -> Seq<u8> {
    match decode(table, bytes) {
        Ok((_, length)) => bytes.skip(length as int),
        Err(Error::UnknownBytecode(_)) => bytes.skip(1),
        Err(Error::IO(_)) => Seq::empty(),
    }
}

/// The outcome of a read of one instruction from the start of `bytes`.
pub open spec fn decoded_from(table: Seq<Option<Descriptor>>, bytes: Seq<u8>) -> Result<
    Bytecode,
    Error,
> {
    match decode(table, bytes) {
        Ok((bytecode, _)) => Ok(bytecode),
        Err(e) => Err(e),
    }
}

/// A source of bytes that fails once it is exhausted. An implementation
/// says in `remaining` which bytes it still holds, and its `read_u8` hands
/// them out one by one, in their order.
pub trait BytecodeStream: Sized {
    /// The bytes that are still to come.
    spec fn remaining(&self) -> Seq<u8>;

    /// Takes the next byte, or reports the end of the stream.
    fn read_u8(&mut self) -> (r: Result<u8, IoError>)
        ensures
            match r {
                Ok(byte) => old(self).remaining().len() > 0 && byte == old(self).remaining()[0]
                    && final(self).remaining() == old(self).remaining().skip(1),
                Err(_) => old(self).remaining().len() == 0
                    && final(self).remaining() == old(self).remaining(),
            },
    ;

    /// Reads one instruction: the opcode, and the operand that the table
    /// declares for it.
    fn read_bytecode(&mut self, table: &Table) -> (decoded: Result<Bytecode, Error>)
        ensures
            decoded == decoded_from(table@, old(self).remaining()),
            final(self).remaining() == left_after(table@, old(self).remaining()),
    {
        let ghost bytes = self.remaining();
        let opcode = match self.read_u8() {
            Ok(byte) => byte,
            Err(e) => {
                assert(self.remaining() =~= Seq::<u8>::empty());
                return Err(Error::IO(e));
            },
        };
        match table[opcode as usize] {
            None => Err(Error::UnknownBytecode(opcode)),
            Some(descriptor) => {
                let width = descriptor.format.width();
                let first: u8 = if width >= 1 {
                    match self.read_u8() {
                        Ok(byte) => byte,
                        Err(e) => {
                            assert(self.remaining() =~= Seq::<u8>::empty());
                            return Err(Error::IO(e));
                        },
                    }
                } else {
                    0
                };
                let second: u8 = if width >= 2 {
                    match self.read_u8() {
                        Ok(byte) => byte,
                        Err(e) => {
                            assert(self.remaining() =~= Seq::<u8>::empty());
                            return Err(Error::IO(e));
                        },
                    }
                } else {
                    0
                };
                proof {
                    if width >= 1 {
                        assert(bytes.skip(1).skip(1) =~= bytes.skip(2));
                    }
                    if width >= 2 {
                        assert(bytes.skip(2).skip(1) =~= bytes.skip(3));
                    }
                }
                Ok(Bytecode::assemble(descriptor, first, second))
            },
        }
    }

    /// Decodes the next instruction. The end of the stream, before the opcode
    /// or within the operand, is no error here: it ends the sequence.
    fn next(&mut self, table: &Table) -> (r: Result<Option<Bytecode>, Error>)
        ensures
            r == continuation(decoded_from(table@, old(self).remaining())),
            final(self).remaining() == left_after(table@, old(self).remaining()),
    {
        Bytecode::continued(self.read_bytecode(table))
    }
}

/// What a sequence of instructions makes of one read: an instruction is the
/// next element, the end of the stream ends the sequence, and an opcode that
/// is not declared is an error.
pub open spec fn continuation(decoded: Result<Bytecode, Error>) -> Result<Option<Bytecode>, Error> {
    match decoded {
        Ok(bytecode) => Ok(Some(bytecode)),
        Err(Error::IO(_)) => Ok(None),
        Err(e) => Err(e),
    }
}

/// The width to which a mnemonic is padded before an index.
pub const MNEMONIC_WIDTH: usize = 13;

/// The width to which the offset of an instruction is padded in a trace.
pub const OFFSET_WIDTH: usize = 4;

impl Bytecode {
    /// How the instruction is written out: the mnemonic alone where there is
    /// no index; else the mnemonic, padded with spaces to thirteen
    /// characters, a space, a number sign and the index.
    pub open spec fn text(self) -> Seq<char> {
        match self.index {
            None => self.mnemonic@,
            Some(index) => padded_right(self.mnemonic@, 13) + " #"@ + decimal(index as nat),
        }
    }

    /// Writes the instruction out.
    pub fn to_string(&self) -> (text: String)
        ensures
            text@ == self.text(),
    {
        let mut out = String::from_str(self.mnemonic);
        match self.index {
            None => {},
            Some(index) => {
                let length = self.mnemonic.unicode_len();
                if length < MNEMONIC_WIDTH {
                    push_spaces(&mut out, MNEMONIC_WIDTH - length);
                } else {
                    assert(spaces(13 - self.mnemonic@.len()) =~= Seq::<char>::empty());
                }
                out.append(" #");
                push_decimal(&mut out, index as u64);
                assert(out@ =~= self.text());
            },
        }
        out
    }

    /// The line that records the instruction in a trace: its offset, padded
    /// on the left to four characters, a colon and a space, and the
    /// instruction written out.
    pub open spec fn trace_text(self, pc: nat) -> Seq<char> {
        padded_left(decimal(pc), 4) + ": "@ + self.text()
    }

    /// Writes the line that records the instruction at offset `pc`.
    pub fn trace_line(&self, pc: usize) -> (line: String)
        ensures
            line@ == self.trace_text(pc as nat),
    {
        let mut number = String::new();
        push_decimal(&mut number, pc as u64);
        assert(number@ =~= decimal(pc as nat));
        let length = number.as_str().unicode_len();
        let mut out = String::new();
        if length < OFFSET_WIDTH {
            push_spaces(&mut out, OFFSET_WIDTH - length);
        } else {
            assert(spaces(4 - number@.len()) =~= Seq::<char>::empty());
        }
        out.append(number.as_str());
        out.append(": ");
        let text = self.to_string();
        out.append(text.as_str());
        assert(out@ =~= self.trace_text(pc as nat));
        out
    }

    /// What a sequence of instructions makes of the outcome of one read.
    pub fn continued(decoded: Result<Bytecode, Error>) -> (r: Result<Option<Bytecode>, Error>)
        ensures
            r == continuation(decoded),
    {
        match decoded {
            Ok(bytecode) => Ok(Some(bytecode)),
            Err(Error::IO(_)) => Ok(None),
            Err(e) => Err(e),
        }
    }

    /// The instruction that `descriptor` declares, with the operand bytes
    /// `first` and `second` as far as its format has them.
    pub fn assemble(descriptor: Descriptor, first: u8, second: u8) -> (bytecode: Bytecode)
        ensures
            bytecode == assembled(descriptor, first, second),
    {
        let index: Option<u16> = match descriptor.format {
            Format::NoIndex => None,
            Format::Index => Some(first as u16),
            Format::WideIndex => Some(first as u16 * 0x100 + second as u16),
        };
        Bytecode { mnemonic: descriptor.mnemonic, index }
    }

    /// Decodes the instruction at the start of `bytes` and says how many
    /// bytes it takes.
    pub fn decode(table: &Table, bytes: &[u8]) -> (decoded: Result<(Bytecode, usize), Error>)
        ensures
            match decoded {
                Ok((bytecode, length)) => decode(table@, bytes@) == Ok::<(Bytecode, nat), Error>(
                    (bytecode, length as nat),
                ),
                Err(e) => decode(table@, bytes@) == Err::<(Bytecode, nat), Error>(e),
            },
    {
        if bytes.len() == 0 {
            return Err(Error::IO(IoError::UnexpectedEof));
        }
        match table[bytes[0] as usize] {
            None => Err(Error::UnknownBytecode(bytes[0])),
            Some(descriptor) => {
                let width = descriptor.format.width();
                if bytes.len() - 1 < width {
                    return Err(Error::IO(IoError::UnexpectedEof));
                }
                let first: u8 = if width >= 1 {
                    bytes[1]
                } else {
                    0
                };
                let second: u8 = if width >= 2 {
                    bytes[2]
                } else {
                    0
                };
                Ok((Bytecode::assemble(descriptor, first, second), 1 + width))
            },
        }
    }

    /// Reads one instruction from `r`: the opcode, and the operand that the
    /// table declares for it.
    pub fn read<R: BytecodeStream>(table: &Table, r: &mut R) -> (decoded: Result<Bytecode, Error>)
        ensures
            decoded == decoded_from(table@, old(r).remaining()),
            final(r).remaining() == left_after(table@, old(r).remaining()),
    {
        r.read_bytecode(table)
    }
}

/// Every opcode that a table declares decodes, when zero bytes follow it as
/// its operand, to the declared mnemonic, with the index zero where the
/// format has one.
pub proof fn lemma_declared_opcodes_decode(table: Seq<Option<Descriptor>>, opcode: u8)
    requires
        table.len() == 256,
        table[opcode as int] is Some,
    ensures
        decode(
            table,
            seq![opcode] + Seq::new(table[opcode as int]->Some_0.format.spec_width(), |i: int| 0u8),
        ) == Ok::<(Bytecode, nat), Error>(
            (
                Bytecode {
                    mnemonic: table[opcode as int]->Some_0.mnemonic,
                    index: if table[opcode as int]->Some_0.format is NoIndex {
                        None
                    } else {
                        Some(0u16)
                    },
                },
                1 + table[opcode as int]->Some_0.format.spec_width(),
            ),
        ),
{
}

/// A stream that holds an opcode that a table declares, followed by zero
/// bytes as its operand, hands out the declared instruction, with the index
/// zero where the format has one. It is then at its end, and what it hands
/// out next ends the sequence.
pub proof fn lemma_declared_opcodes_read(table: Seq<Option<Descriptor>>, opcode: u8)
    requires
        table.len() == 256,
        table[opcode as int] is Some,
    ensures
        ({
            let descriptor = table[opcode as int]->Some_0;
            let bytes = seq![opcode] + Seq::new(descriptor.format.spec_width(), |i: int| 0u8);
            &&& continuation(decoded_from(table, bytes)) == Ok::<Option<Bytecode>, Error>(
                Some(
                    Bytecode {
                        mnemonic: descriptor.mnemonic,
                        index: if descriptor.format is NoIndex {
                            None
                        } else {
                            Some(0u16)
                        },
                    },
                ),
            )
            &&& left_after(table, bytes) == Seq::<u8>::empty()
            &&& continuation(decoded_from(table, left_after(table, bytes))) == Ok::<
                Option<Bytecode>,
                Error,
            >(None)
        }),
{
    let descriptor = table[opcode as int]->Some_0;
    let bytes = seq![opcode] + Seq::new(descriptor.format.spec_width(), |i: int| 0u8);
    lemma_declared_opcodes_decode(table, opcode);
    assert(left_after(table, bytes) =~= Seq::<u8>::empty());
}

/// An opcode that a table does not declare is refused by name.
pub proof fn lemma_undeclared_opcode_fails(
    table: Seq<Option<Descriptor>>,
    opcode: u8,
    rest: Seq<u8>,
)
    requires
        table.len() == 256,
        table[opcode as int] is None,
    ensures
        decode(table, seq![opcode] + rest) == Err::<(Bytecode, nat), Error>(
            Error::UnknownBytecode(opcode),
        ),
{
}

} // verus!
