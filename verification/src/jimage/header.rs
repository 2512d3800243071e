//! The header of an archive.

use crate::bytes::read_u32;
use crate::bytes::u32_at;
use crate::bytes::Endianness;
use crate::text::decimal;
use crate::text::push_char;
use crate::text::push_decimal;
use vstd::prelude::*;
use vstd::string::StringExecFns;

verus! {

/// The fixed-size head of an archive, after its magic identifier.
#[derive(Clone, Copy, Debug, PartialEq, Eq)]
pub struct Header {
    /// Major and minor version.
    pub version: (u16, u16),
    pub flags: u32,
    /// The number of resources.
    pub resource_count: u32,
    /// The number of entries of the redirect table, and of the offsets.
    pub table_length: u32,
    /// The number of bytes of attribute streams.
    pub attributes_size: u32,
    /// The number of bytes of strings.
    pub strings_size: u32,
}

/// The number of bytes before the tables: the magic identifier and the six
/// 32-bit words of the header.
pub const HEADER_END: usize = 28;

/// The header that the bytes 4 to 27 of `buf` spell in the given byte order.
/// The version is one 32-bit word with the major version in its high half.
pub open spec fn header_of(buf: Seq<u8>, order: Endianness) -> Header {
    let version = u32_at(buf, 4, order);
    Header {
        version: ((version / 0x1_0000) as u16, (version % 0x1_0000) as u16),
        flags: u32_at(buf, 8, order),
        resource_count: u32_at(buf, 12, order),
        table_length: u32_at(buf, 16, order),
        attributes_size: u32_at(buf, 20, order),
        strings_size: u32_at(buf, 24, order),
    }
}

/// One line of a header's description: a label, a number and a line feed.
pub open spec fn described(label: Seq<char>, n: int) -> Seq<char> {
    label + decimal(n as nat) + seq!['\n']
}

/// Appends one line of a header's description to `out`.
fn push_described(out: &mut String, label: &str, n: u64)
    ensures
        final(out)@ == old(out)@ + described(label@, n as int),
{
    out.append(label);
    push_decimal(out, n);
    push_char(out, '\n');
    assert(out@ =~= old(out)@ + described(label@, n as int));
}

impl Header {
    /// The number of bytes of the redirect table.
    pub open spec fn spec_redirect_table_size(self) -> int {
        self.table_length * 4
    }

    /// The number of bytes of the table of attribute offsets.
    pub open spec fn spec_attribute_offsets_size(self) -> int {
        self.table_length * 4
    }

    /// The number of bytes before the resources' content: magic identifier,
    /// header, both tables, attribute streams and strings.
    pub open spec fn spec_index_size(self) -> int {
        28 + self.spec_redirect_table_size() + self.spec_attribute_offsets_size()
            + self.attributes_size + self.strings_size
    }

    /// The number of bytes before the resources' content.
    pub fn index_size(&self) -> (n: u64)
        ensures
            n == self.spec_index_size(),
    {
        28 + self.redirect_table_size() + self.attribute_offsets_size()
            + self.attributes_size as u64 + self.strings_size as u64
    }

    /// The number of bytes of the redirect table.
    pub fn redirect_table_size(&self) -> (n: u64)
        ensures
            n == self.spec_redirect_table_size(),
    {
        self.table_length as u64 * 4
    }

    /// The number of bytes of the table of attribute offsets.
    pub fn attribute_offsets_size(&self) -> (n: u64)
        ensures
            n == self.spec_attribute_offsets_size(),
    {
        self.table_length as u64 * 4
    }

    /// The description of the header: one line for each of its numbers and
    /// for each size that follows from them.
    pub open spec fn text(self) -> Seq<char> {
        described(" Major Version:  "@, self.version.0 as int) + described(
            " Minor Version:  "@,
            self.version.1 as int,
        ) + described(" Flags:          "@, self.flags as int) + described(
            " Resource Count: "@,
            self.resource_count as int,
        ) + described(" Table Length:   "@, self.table_length as int) + described(
            " Offsets Size:   "@,
            self.spec_attribute_offsets_size(),
        ) + described(" Redirects Size: "@, self.spec_redirect_table_size()) + described(
            " Locations Size: "@,
            self.attributes_size as int,
        ) + described(" Strings Size:   "@, self.strings_size as int) + described(
            " Index Size:     "@,
            self.spec_index_size(),
        )
    }

    /// Describes the header, one number to a line.
    pub fn to_string(&self) -> (text: String)
        ensures
            text@ == self.text(),
    {
        let mut out = String::new();
        push_described(&mut out, " Major Version:  ", self.version.0 as u64);
        push_described(&mut out, " Minor Version:  ", self.version.1 as u64);
        push_described(&mut out, " Flags:          ", self.flags as u64);
        push_described(&mut out, " Resource Count: ", self.resource_count as u64);
        push_described(&mut out, " Table Length:   ", self.table_length as u64);
        push_described(&mut out, " Offsets Size:   ", self.attribute_offsets_size());
        push_described(&mut out, " Redirects Size: ", self.redirect_table_size());
        push_described(&mut out, " Locations Size: ", self.attributes_size as u64);
        push_described(&mut out, " Strings Size:   ", self.strings_size as u64);
        push_described(&mut out, " Index Size:     ", self.index_size());
        assert(out@ =~= self.text());
        out
    }

    /// Reads the header from the bytes 4 to 27 of `buf`.
    pub(crate) fn read(buf: &[u8], order: Endianness) -> (header: Header)
        requires
            buf@.len() >= 28,
        ensures
            header == header_of(buf@, order),
    {
        let version = read_u32(buf, 4, order);
        Header {
            version: ((version / 0x1_0000) as u16, (version % 0x1_0000) as u16),
            flags: read_u32(buf, 8, order),
            resource_count: read_u32(buf, 12, order),
            table_length: read_u32(buf, 16, order),
            attributes_size: read_u32(buf, 20, order),
            strings_size: read_u32(buf, 24, order),
        }
    }
}

} // verus!
