//! Reader for packed module archives: a header, a perfect-hash index over the
//! resources, and for each resource a compact stream of tagged attributes.
//!
//! The multi-byte numbers of an archive are in the byte order of the machine
//! that wrote it: an archive written on a machine of one byte order reads
//! differently on a machine of the other.

pub mod attributes;
pub mod error;
pub mod hash;
pub mod header;
pub mod index;

use crate::bytes::native_endianness;
use crate::bytes::Endianness;
use crate::io::IoError;
use crate::text::decode_lossy;
use crate::text::lossy_text;
use header::header_of;
use index::c_string;
use index::index_of;
use index::resource_path;
use vstd::prelude::*;
use vstd::string::StringSliceAdditionalSpecFns;

pub use attributes::parse_attributes;
pub use attributes::AttributeKind;
pub use attributes::ATTRIBUTE_SLOTS;
pub use error::Error;
pub use error::ErrorView;
pub use hash::hash;
pub use hash::hash_bytes;
pub use hash::HASH_MULTIPLIER;
pub use header::Header;
pub use header::HEADER_END;
pub use index::Index;
pub use index::IndexView;

verus! {

/// An archive, as plain values.
pub struct ArchiveView {
    /// All bytes of the archive.
    pub buf: Seq<u8>,
    pub header: Header,
    pub index: IndexView,
    /// Where the resources' content starts in `buf`.
    pub resource_data_start: int,
}

impl ArchiveView {
    /// The content of the resource with the given attributes: it starts
    /// `Offset` bytes into the payload area and is `Uncompressed` bytes long.
    /// There is none where the archive ends before it does.
    pub open spec fn content(self, attributes: Seq<u64>) -> Option<Seq<u8>> {
        let start = self.resource_data_start + attributes[5];
        let end = start + attributes[7];
        if end <= self.buf.len() {
            Some(self.buf.subrange(start, end))
        } else {
            None
        }
    }

    /// The content of the resource filed under `path`.
    pub open spec fn content_by_name(self, path: Seq<u8>) -> Option<Seq<u8>> {
        match self.index.lookup(path) {
            None => None,
            Some(attributes) => self.content(attributes),
        }
    }
}

/// What parsing makes of `buf` in the given byte order. The 28 bytes of magic
/// identifier and header must be there, and after them the whole index whose
/// sizes the header states.
pub open spec fn parsed(buf: Seq<u8>, order: Endianness) -> Result<ArchiveView, ErrorView> {
    if buf.len() < 28 || buf.len() < header_of(buf, order).spec_index_size() {
        Err(ErrorView::IO(IoError::UnexpectedEof))
    } else {
        Ok(
            ArchiveView {
                buf,
                header: header_of(buf, order),
                index: index_of(buf, header_of(buf, order), order),
                resource_data_start: header_of(buf, order).spec_index_size(),
            },
        )
    }
}

/// A module archive over the bytes it was parsed from.
pub struct Archive<'a> {
    buf: &'a [u8],
    header: Header,
    index: Index,
    resource_data_start: usize,
}

impl<'a> View for Archive<'a> {
    type V = ArchiveView;

    closed spec fn view(&self) -> ArchiveView {
        ArchiveView {
            buf: self.buf@,
            header: self.header,
            index: self.index@,
            resource_data_start: self.resource_data_start as int,
        }
    }
}

impl<'a> Archive<'a> {
    /// Parses an archive whose numbers are in the byte order of this machine.
    pub fn parse(buf: &'a [u8]) -> (r: Result<Archive<'a>, Error>)
        ensures
            match r {
                Ok(archive) => exists|order: Endianness|
                    parsed(buf@, order) == Ok::<ArchiveView, ErrorView>(archive@),
                Err(e) => exists|order: Endianness|
                    parsed(buf@, order) == Err::<ArchiveView, ErrorView>(e@),
            },
    {
        Archive::parse_as(buf, native_endianness())
    }

    /// Parses an archive whose numbers are in the given byte order.
    pub fn parse_as(buf: &'a [u8], order: Endianness) -> (r: Result<Archive<'a>, Error>)
        ensures
            match r {
                Ok(archive) => parsed(buf@, order) == Ok::<ArchiveView, ErrorView>(archive@),
                Err(e) => parsed(buf@, order) == Err::<ArchiveView, ErrorView>(e@),
            },
    {
        if buf.len() < HEADER_END {
            return Err(Error::IO(IoError::UnexpectedEof));
        }
        let header = Header::read(buf, order);
        let index_size = header.index_size();
        if (buf.len() as u64) < index_size {
            return Err(Error::IO(IoError::UnexpectedEof));
        }
        let index = Index::read(buf, &header, order);
        Ok(Archive { buf, header, index, resource_data_start: index_size as usize })
    }

    /// The header.
    pub fn header(&self) -> (header: &Header)
        ensures
            *header == self@.header,
    {
        &self.header
    }

    /// The index.
    pub fn index(&self) -> (index: &Index)
        ensures
            index@ == self@.index,
    {
        &self.index
    }

    /// A walk over all slots of the index, from the first.
    pub fn resources(&'a self) -> (walk: Resources<'a>)
        ensures
            walk.archive() == self@,
            walk.position() == 0,
    {
        Resources { archive: self, index: 0 }
    }

    /// The resource filed under `path`, if there is one.
    pub fn by_name(&'a self, path: &str) -> (found: Option<Resource<'a>>)
        ensures
            match found {
                Some(resource) => self@.index.lookup(path.spec_bytes()) == Some(
                    resource.attributes(),
                ) && resource.archive() == self@,
                None => self@.index.lookup(path.spec_bytes()) is None,
            },
    {
        match self.index.find(path) {
            None => None,
            Some(attributes) => Some(Resource { attributes, archive: self }),
        }
    }

    /// Whether `resource` is filed under exactly `path`.
    pub fn verify(resource: &Resource, path: &str) -> (matches: bool)
        ensures
            matches == (resource.path() == path.spec_bytes()),
    {
        resource.archive.index.verify(&resource.attributes, path)
    }
}

/// A resource of an archive: its attributes, and the archive to read its
/// strings and content from.
pub struct Resource<'a> {
    attributes: [u64; 8],
    archive: &'a Archive<'a>,
}

impl<'a> Resource<'a> {
    /// The eight attribute slots.
    pub closed spec fn attributes(&self) -> Seq<u64> {
        self.attributes@
    }

    /// The archive that the resource is part of.
    pub closed spec fn archive(&self) -> ArchiveView {
        self.archive@
    }

    /// The bytes of the string that the attribute of the given kind points at.
    pub open spec fn string(&self, kind: AttributeKind) -> Seq<u8> {
        c_string(self.archive().index.strings_data, self.attributes()[kind.spec_slot()] as int)
    }

    /// The path under which the resource is filed.
    pub open spec fn path(&self) -> Seq<u8> {
        resource_path(self.archive().index.strings_data, self.attributes())
    }

    /// The value of the attribute of the given kind.
    pub fn attribute(&self, kind: AttributeKind) -> (value: u64)
        ensures
            value == self.attributes()[kind.spec_slot()],
    {
        self.attributes[kind.slot()]
    }

    /// The bytes of the string that the attribute of the given kind points at.
    pub fn string_at(&self, kind: AttributeKind) -> (s: &'a [u8])
        ensures
            s@ == self.string(kind),
    {
        let archive: &'a Archive<'a> = self.archive;
        archive.index.string_at(self.attributes[kind.slot()])
    }

    /// The name of the module, decoded lossily.
    pub fn module(&self) -> (name: String)
        ensures
            name@ == lossy_text(self.string(AttributeKind::Module)),
            vstd::utf8::valid_utf8(self.string(AttributeKind::Module)) ==> name@
                == vstd::utf8::decode_utf8(self.string(AttributeKind::Module)),
    {
        decode_lossy(self.string_at(AttributeKind::Module))
    }

    /// The package path, decoded lossily.
    pub fn package(&self) -> (name: String)
        ensures
            name@ == lossy_text(self.string(AttributeKind::Parent)),
            vstd::utf8::valid_utf8(self.string(AttributeKind::Parent)) ==> name@
                == vstd::utf8::decode_utf8(self.string(AttributeKind::Parent)),
    {
        decode_lossy(self.string_at(AttributeKind::Parent))
    }

    /// The base name, decoded lossily.
    pub fn base(&self) -> (name: String)
        ensures
            name@ == lossy_text(self.string(AttributeKind::Base)),
            vstd::utf8::valid_utf8(self.string(AttributeKind::Base)) ==> name@
                == vstd::utf8::decode_utf8(self.string(AttributeKind::Base)),
    {
        decode_lossy(self.string_at(AttributeKind::Base))
    }

    /// The extension, decoded lossily.
    pub fn extension(&self) -> (name: String)
        ensures
            name@ == lossy_text(self.string(AttributeKind::Extension)),
            vstd::utf8::valid_utf8(self.string(AttributeKind::Extension)) ==> name@
                == vstd::utf8::decode_utf8(self.string(AttributeKind::Extension)),
    {
        decode_lossy(self.string_at(AttributeKind::Extension))
    }

    /// Where the content starts, counted from the start of the payload area.
    pub fn offset(&self) -> (offset: u64)
        ensures
            offset == self.attributes()[AttributeKind::Offset.spec_slot()],
    {
        self.attributes[AttributeKind::Offset.slot()]
    }

    /// The content of the resource, where the archive holds all of it.
    pub open spec fn content(&self) -> Option<Seq<u8>> {
        self.archive().content(self.attributes())
    }

    /// The content of the resource as stored, or nothing where the archive
    /// ends before it.
    pub fn bytes(&self) -> (content: Option<&'a [u8]>)
        ensures
            match content {
                Some(bytes) => self.content() == Some(bytes@),
                None => self.content() is None,
            },
    {
        let buf: &'a [u8] = self.archive.buf;
        let len = buf.len() as u64;
        let offset = self.attributes[AttributeKind::Offset.slot()];
        let size = self.attributes[AttributeKind::Uncompressed.slot()];
        let data_start = self.archive.resource_data_start as u64;
        if data_start > len || offset > len - data_start {
            return None;
        }
        if size > len - data_start - offset {
            return None;
        }
        let start = (data_start + offset) as usize;
        let end = (data_start + offset + size) as usize;
        Some(vstd::slice::slice_subrange(buf, start, end))
    }
}

/// A walk over all slots of an archive's index, in order.
pub struct Resources<'a> {
    archive: &'a Archive<'a>,
    index: usize,
}

impl<'a> Resources<'a> {
    /// The archive that is walked.
    pub closed spec fn archive(&self) -> ArchiveView {
        self.archive@
    }

    /// The slot that comes next.
    pub closed spec fn position(&self) -> int {
        self.index as int
    }

    /// The resource in the next slot, or the reason why the slot's stream
    /// does not decode; nothing once every slot has been visited. Slots are
    /// visited whether or not a path leads to them.
    pub fn next(&mut self) -> (item: Option<Result<Resource<'a>, Error>>)
        ensures
            final(self).archive() == old(self).archive(),
            ({
                let index = old(self).archive().index;
                let slot = old(self).position();
                match item {
                    None => slot >= index.attribute_offsets.len() && final(self).position() == slot,
                    Some(found) => slot < index.attribute_offsets.len() && final(self).position()
                        == slot + 1 && match found {
                        Ok(resource) => index.attributes_at(slot) == Ok::<Seq<u64>, ErrorView>(
                            resource.attributes(),
                        ) && resource.archive() == old(self).archive(),
                        Err(e) => index.attributes_at(slot) == Err::<Seq<u64>, ErrorView>(e@),
                    },
                }
            }),
    {
        let archive: &'a Archive<'a> = self.archive;
        if self.index >= archive.index.attribute_offsets().len() {
            return None;
        }
        let slot = self.index;
        self.index += 1;
        match archive.index.attributes_in(slot) {
            Ok(attributes) => Some(Ok(Resource { attributes, archive })),
            Err(e) => Some(Err(e)),
        }
    }
}

} // verus!
