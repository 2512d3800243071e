//! The attributes of a resource, and the tagged stream they are stored as.

use super::error::Error;
use super::error::ErrorView;
use crate::bytes::be_nat;
use crate::bytes::read_be_uint;
use crate::io::IoError;
use crate::text::decimal;
use crate::text::push_decimal;
use vstd::prelude::*;
use vstd::string::StringExecFns;

verus! {

/// What one attribute of a resource says.
#[derive(Clone, Copy, Debug, PartialEq, Eq, Structural)]
pub enum AttributeKind {
    /// Where the module's name starts in the strings.
    Module,
    /// Where the package path starts in the strings.
    Parent,
    /// Where the base name starts in the strings.
    Base,
    /// Where the extension starts in the strings.
    Extension,
    /// Where the content starts in the payload area.
    Offset,
    /// The size of the content as stored, if it is compressed.
    Compressed,
    /// The size of the content.
    Uncompressed,
}

/// The number of attribute slots of a resource: one for each kind, after an
/// unused slot for the tag that ends a stream.
pub const ATTRIBUTE_SLOTS: usize = 8;

impl AttributeKind {
    /// The slot of this kind, which is also the number that stands for it in
    /// a tag.
    pub open spec fn spec_slot(self) -> int {
        match self {
            AttributeKind::Module => 1,
            AttributeKind::Parent => 2,
            AttributeKind::Base => 3,
            AttributeKind::Extension => 4,
            AttributeKind::Offset => 5,
            AttributeKind::Compressed => 6,
            AttributeKind::Uncompressed => 7,
        }
    }

    /// The slot of this kind.
    pub fn slot(self) -> (n: usize)
        ensures
            n == self.spec_slot(),
            1 <= n < ATTRIBUTE_SLOTS,
    {
        match self {
            AttributeKind::Module => 1,
            AttributeKind::Parent => 2,
            AttributeKind::Base => 3,
            AttributeKind::Extension => 4,
            AttributeKind::Offset => 5,
            AttributeKind::Compressed => 6,
            AttributeKind::Uncompressed => 7,
        }
    }

    /// The kind that `value` stands for: the numbers 1 to 7 name a kind each,
    /// any other number comes back as the error.
    pub fn try_from(value: u8) -> (r: Result<AttributeKind, u8>)
        ensures
            match r {
                Ok(kind) => kind.spec_slot() == value,
                Err(v) => v == value && !(1 <= value <= 7),
            },
    {
        match value {
            1 => Ok(AttributeKind::Module),
            2 => Ok(AttributeKind::Parent),
            3 => Ok(AttributeKind::Base),
            4 => Ok(AttributeKind::Extension),
            5 => Ok(AttributeKind::Offset),
            6 => Ok(AttributeKind::Compressed),
            7 => Ok(AttributeKind::Uncompressed),
            _ => Err(value),
        }
    }
}

/// The kind number in a tag: its high five bits.
pub open spec fn tag_kind(tag: u8) -> int {
    tag as int / 8
}

/// The number of value bytes that follow a tag: its low three bits, plus one.
pub open spec fn tag_width(tag: u8) -> int {
    tag as int % 8 + 1
}

/// The message of the error for a tag whose kind is not one of the seven.
pub open spec fn invalid_kind_message(kind: int) -> Seq<char> {
    "Invalid attribute kind: "@ + decimal(kind as nat)
}

/// The attributes that the stream in `data` holds, decoded from `at` on with
/// `acc` decoded so far. The stream began at `start`. A zero tag ends it. Any
/// other tag names a kind and the width of the big-endian value that follows,
/// which goes to the slot of that kind.
pub open spec fn decode_from(data: Seq<u8>, start: int, at: int, acc: Seq<u64>) -> Result<
    Seq<u64>,
    ErrorView,
>
    decreases data.len() - at,
{
    if at < start || at >= data.len() {
        Err(ErrorView::IO(IoError::UnexpectedEof))
    } else if data[at] == 0 {
        Ok(acc)
    } else if !(1 <= tag_kind(data[at]) <= 7) {
        Err(ErrorView::Read(invalid_kind_message(tag_kind(data[at])), (at - start) as usize))
    } else if at + 1 + tag_width(data[at]) > data.len() {
        Err(ErrorView::IO(IoError::UnexpectedEof))
    } else {
        decode_from(
            data,
            start,
            at + 1 + tag_width(data[at]),
            acc.update(
                tag_kind(data[at]),
                be_nat(data.subrange(at + 1, at + 1 + tag_width(data[at]))) as u64,
            ),
        )
    }
}

/// The attributes of the stream that starts at `start` in `data`: eight
/// slots, zero where the stream names no value.
pub open spec fn decode_attributes(data: Seq<u8>, start: int) -> Result<Seq<u64>, ErrorView> {
    decode_from(data, start, start, Seq::new(8, |i: int| 0u64))
}

/// Decodes the attribute stream that starts at `start` in `data`.
pub fn parse_attributes(data: &[u8], start: usize) -> (r: Result<[u64; 8], Error>)
    ensures
        match r {
            Ok(attributes) => decode_attributes(data@, start as int) == Ok::<
                Seq<u64>,
                ErrorView,
            >(attributes@),
            Err(e) => decode_attributes(data@, start as int) == Err::<Seq<u64>, ErrorView>(e@),
        },
{
    let mut attributes: [u64; 8] = [0u64; 8];
    assert(attributes@ =~= Seq::new(8, |i: int| 0u64));
    let mut at: usize = start;
    loop
        invariant
            start <= at,
            attributes@.len() == 8,
            decode_attributes(data@, start as int) == decode_from(
                data@,
                start as int,
                at as int,
                attributes@,
            ),
        decreases data@.len() - at,
    {
        if at >= data.len() {
            return Err(Error::IO(IoError::UnexpectedEof));
        }
        let tag = data[at];
        if tag == 0 {
            return Ok(attributes);
        }
        let kind: u8 = tag >> 3;
        let low: u8 = tag & 7;
        assert(kind == tag / 8 && low == tag % 8) by (bit_vector)
            requires
                kind == tag >> 3,
                low == tag & 7,
        ;
        let width: usize = low as usize + 1;
        match AttributeKind::try_from(kind) {
            Err(unknown) => {
                let mut message = String::from_str("Invalid attribute kind: ");
                push_decimal(&mut message, unknown as u64);
                return Err(Error::Read(message, at - start));
            },
            Ok(known) => {
                if width > data.len() - at - 1 {
                    return Err(Error::IO(IoError::UnexpectedEof));
                }
                let value = read_be_uint(data, at + 1, width);
                attributes[known.slot()] = value;
                at = at + 1 + width;
            },
        }
    }
}

} // verus!
