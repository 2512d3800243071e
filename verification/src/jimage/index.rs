//! The index of an archive: a redirect table and a table of offsets for the
//! perfect hash, the attribute streams of the resources, and the strings that
//! the attributes point into.

use super::attributes::decode_attributes;
use super::attributes::parse_attributes;
use super::error::Error;
use super::error::ErrorView;
use super::hash::hash_bytes;
use super::hash::hash_of;
use super::hash::HASH_MULTIPLIER;
use super::header::Header;
use super::header::HEADER_END;
use crate::bytes::append_bytes;
use crate::bytes::i32_at;
use crate::bytes::read_i32;
use crate::bytes::read_u32;
use crate::bytes::same_bytes;
use crate::bytes::u32_at;
use crate::bytes::Endianness;
use vstd::prelude::*;
use vstd::string::StringSliceAdditionalSpecFns;

verus! {

/// The bytes of the string that starts at `at` in `data` and runs up to the
/// next zero byte, or to the end of `data` where none follows. Past the end of
/// `data` there is only the empty string.
pub open spec fn c_string(data: Seq<u8>, at: int) -> Seq<u8>
    decreases data.len() - at,
{
    if at < 0 || at >= data.len() || data[at] == 0 {
        Seq::empty()
    } else {
        seq![data[at]] + c_string(data, at + 1)
    }
}

/// The path under which a resource with these attributes is filed: the
/// module between slashes, the package path and a slash, the base name, and a
/// dot and the extension. A part whose string is empty is left out together
/// with its separators; the base name always stands.
pub open spec fn resource_path(strings: Seq<u8>, attributes: Seq<u64>) -> Seq<u8> {
    let module = c_string(strings, attributes[1] as int);
    let parent = c_string(strings, attributes[2] as int);
    let base = c_string(strings, attributes[3] as int);
    let extension = c_string(strings, attributes[4] as int);
    (if module.len() > 0 {
        seq![47u8] + module + seq![47u8]
    } else {
        Seq::empty()
    }) + (if parent.len() > 0 {
        parent + seq![47u8]
    } else {
        Seq::empty()
    }) + base + (if extension.len() > 0 {
        seq![46u8] + extension
    } else {
        Seq::empty()
    })
}

/// The slot that the two-level hash assigns to `path`. The first hash picks
/// an entry of the redirect table. Zero there means that nothing is filed
/// under the path; a positive entry is the seed of a second hash, which gives
/// the slot; a negative entry `v` gives the slot `-1 - v` at once.
pub open spec fn slot_of(redirect: Seq<i32>, path: Seq<u8>) -> Option<int> {
    if redirect.len() == 0 {
        None
    } else {
        let v = redirect[hash_of(path, HASH_MULTIPLIER) as int % redirect.len() as int];
        if v == 0 {
            None
        } else if v > 0 {
            Some(hash_of(path, v) as int % redirect.len() as int)
        } else {
            Some(-1 - v)
        }
    }
}

/// The index of an archive, as sequences.
pub struct IndexView {
    pub redirect_table: Seq<i32>,
    pub attribute_offsets: Seq<u32>,
    pub strings_data: Seq<u8>,
    pub attribute_data: Seq<u8>,
}

impl IndexView {
    /// The attributes filed in `slot`, where the slot exists and its stream
    /// decodes.
    pub open spec fn attributes_at(self, slot: int) -> Result<Seq<u64>, ErrorView> {
        decode_attributes(self.attribute_data, self.attribute_offsets[slot] as int)
    }

    /// The attributes of the resource filed under `path`, if there is one:
    /// those in the slot that the hash assigns to the path, provided that
    /// they spell out this very path.
    pub open spec fn lookup(self, path: Seq<u8>) -> Option<Seq<u64>> {
        match slot_of(self.redirect_table, path) {
            None => None,
            Some(slot) => if !(0 <= slot < self.attribute_offsets.len()) {
                None
            } else {
                match self.attributes_at(slot) {
                    Err(_) => None,
                    Ok(attributes) => if resource_path(self.strings_data, attributes) == path {
                        Some(attributes)
                    } else {
                        None
                    },
                }
            },
        }
    }

    /// Every slot holds a resource, and the hash of each resource's own path
    /// leads back to its slot.
    pub open spec fn well_formed(self) -> bool {
        &&& self.attribute_offsets.len() == self.redirect_table.len()
        &&& forall|slot: int|
            0 <= slot < self.attribute_offsets.len() ==> (#[trigger] self.attributes_at(slot)) is Ok
                && slot_of(
                self.redirect_table,
                resource_path(self.strings_data, self.attributes_at(slot)->Ok_0),
            ) == Some(slot)
    }
}

/// A lookup of the path that a slot's own resource spells out finds that
/// resource again, with every attribute as it is filed.
pub proof fn lemma_lookup_round_trip(index: IndexView, slot: int)
    requires
        index.well_formed(),
        0 <= slot < index.attribute_offsets.len(),
    ensures
        index.lookup(resource_path(index.strings_data, index.attributes_at(slot)->Ok_0)) == Some(
            index.attributes_at(slot)->Ok_0,
        ),
{
}

/// A path that the hash sends to the slot of a resource filed under another
/// path is not found.
pub proof fn lemma_lookup_rejects_collision(index: IndexView, path: Seq<u8>, slot: int)
    requires
        slot_of(index.redirect_table, path) == Some(slot),
        0 <= slot < index.attribute_offsets.len(),
        index.attributes_at(slot) is Ok,
        resource_path(index.strings_data, index.attributes_at(slot)->Ok_0) != path,
    ensures
        index.lookup(path) is None,
{
}

/// Whatever a lookup finds is filed under exactly the path asked for.
pub proof fn lemma_lookup_sound(index: IndexView, path: Seq<u8>)
    requires
        index.lookup(path) is Some,
    ensures
        resource_path(index.strings_data, index.lookup(path)->Some_0) == path,
{
}

/// The index that follows the header in `buf`: the redirect table, the
/// attribute offsets, the attribute streams and the strings, one after
/// another.
pub open spec fn index_of(buf: Seq<u8>, header: Header, order: Endianness) -> IndexView {
    let tables = 28 + 8 * header.table_length;
    IndexView {
        redirect_table: Seq::new(
            header.table_length as nat,
            |i: int| i32_at(buf, 28 + 4 * i, order),
        ),
        attribute_offsets: Seq::new(
            header.table_length as nat,
            |i: int| u32_at(buf, 28 + 4 * header.table_length + 4 * i, order),
        ),
        attribute_data: buf.subrange(tables, tables + header.attributes_size),
        strings_data: buf.subrange(
            tables + header.attributes_size,
            tables + header.attributes_size + header.strings_size,
        ),
    }
}

/// The parsed index of an archive.
#[derive(Debug)]
pub struct Index {
    redirect_table: Vec<i32>,
    attribute_offsets: Vec<u32>,
    strings_data: Vec<u8>,
    attribute_data: Vec<u8>,
}

impl View for Index {
    type V = IndexView;

    closed spec fn view(&self) -> IndexView {
        IndexView {
            redirect_table: self.redirect_table@,
            attribute_offsets: self.attribute_offsets@,
            strings_data: self.strings_data@,
            attribute_data: self.attribute_data@,
        }
    }
}

/// Reads `count` signed 32-bit numbers that start at `at`.
fn read_i32_table(buf: &[u8], at: usize, count: usize, order: Endianness) -> (table: Vec<i32>)
    requires
        at + 4 * count <= buf@.len(),
    ensures
        table@ == Seq::new(count as nat, |i: int| i32_at(buf@, at + 4 * i, order)),
{
    let mut table: Vec<i32> = Vec::new();
    let end = buf.len();
    let mut i: usize = 0;
    while i < count
        invariant
            i <= count,
            at + 4 * count <= end == buf@.len(),
            table@ == Seq::new(i as nat, |k: int| i32_at(buf@, at + 4 * k, order)),
        decreases count - i,
    {
        table.push(read_i32(buf, at + 4 * i, order));
        i += 1;
    }
    table
}

/// Reads `count` unsigned 32-bit numbers that start at `at`.
fn read_u32_table(buf: &[u8], at: usize, count: usize, order: Endianness) -> (table: Vec<u32>)
    requires
        at + 4 * count <= buf@.len(),
    ensures
        table@ == Seq::new(count as nat, |i: int| u32_at(buf@, at + 4 * i, order)),
{
    let mut table: Vec<u32> = Vec::new();
    let end = buf.len();
    let mut i: usize = 0;
    while i < count
        invariant
            i <= count,
            at + 4 * count <= end == buf@.len(),
            table@ == Seq::new(i as nat, |k: int| u32_at(buf@, at + 4 * k, order)),
        decreases count - i,
    {
        table.push(read_u32(buf, at + 4 * i, order));
        i += 1;
    }
    table
}

/// `c_string` only looks at the bytes from `at` on, so a known prefix of the
/// string can be split off.
proof fn lemma_c_string_step(data: Seq<u8>, start: int, at: int)
    requires
        0 <= start <= at < data.len(),
        forall|k: int| start <= k <= at ==> data[k] != 0,
    ensures
        c_string(data, start) == data.subrange(start, at + 1) + c_string(data, at + 1),
    decreases at - start,
{
    if start < at {
        lemma_c_string_step(data, start + 1, at);
        assert(seq![data[start]] + data.subrange(start + 1, at + 1) =~= data.subrange(
            start,
            at + 1,
        ));
        assert(c_string(data, start) =~= data.subrange(start, at + 1) + c_string(data, at + 1));
    } else {
        assert(seq![data[start]] =~= data.subrange(start, at + 1));
    }
}

/// The string that starts at `at` in `data`, up to the next zero byte.
fn string_in(data: &[u8], at: u64) -> (s: &[u8])
    ensures
        s@ == c_string(data@, at as int),
{
    if at >= data.len() as u64 {
        return vstd::slice::slice_subrange(data, 0, 0);
    }
    let start: usize = at as usize;
    let mut end: usize = start;
    while end < data.len() && data[end] != 0
        invariant
            start <= end <= data@.len(),
            forall|k: int| start <= k < end ==> data@[k] != 0,
        decreases data@.len() - end,
    {
        end += 1;
    }
    proof {
        if start < end {
            lemma_c_string_step(data@, start as int, end - 1);
        }
        assert(c_string(data@, end as int) =~= Seq::<u8>::empty());
        assert(c_string(data@, start as int) =~= data@.subrange(start as int, end as int));
    }
    vstd::slice::slice_subrange(data, start, end)
}

impl Index {
    /// Reads the index that follows the header in `buf`.
    pub(crate) fn read(buf: &[u8], header: &Header, order: Endianness) -> (index: Index)
        requires
            header.spec_index_size() <= buf@.len(),
        ensures
            index@ == index_of(buf@, *header, order),
    {
        let end = buf.len();
        assert(header.spec_index_size() <= end);
        let count = header.table_length as usize;
        let offsets_start = HEADER_END + 4 * count;
        let attributes_start = offsets_start + 4 * count;
        let strings_start = attributes_start + header.attributes_size as usize;
        let strings_end = strings_start + header.strings_size as usize;
        let index = Index {
            redirect_table: read_i32_table(buf, HEADER_END, count, order),
            attribute_offsets: read_u32_table(buf, offsets_start, count, order),
            attribute_data: vstd::slice::slice_to_vec(
                vstd::slice::slice_subrange(buf, attributes_start, strings_start),
            ),
            strings_data: vstd::slice::slice_to_vec(
                vstd::slice::slice_subrange(buf, strings_start, strings_end),
            ),
        };
        assert(index@.redirect_table =~= index_of(buf@, *header, order).redirect_table);
        assert(index@.attribute_offsets =~= index_of(buf@, *header, order).attribute_offsets);
        index
    }

    /// The redirect table.
    pub fn redirect_table(&self) -> (table: &[i32])
        ensures
            table@ == self@.redirect_table,
    {
        self.redirect_table.as_slice()
    }

    /// The offsets of the attribute streams, slot by slot.
    pub fn attribute_offsets(&self) -> (offsets: &[u32])
        ensures
            offsets@ == self@.attribute_offsets,
    {
        self.attribute_offsets.as_slice()
    }

    /// The attribute streams.
    pub fn attribute_data(&self) -> (data: &[u8])
        ensures
            data@ == self@.attribute_data,
    {
        self.attribute_data.as_slice()
    }

    /// The strings.
    pub fn strings_data(&self) -> (data: &[u8])
        ensures
            data@ == self@.strings_data,
    {
        self.strings_data.as_slice()
    }

    /// The string that starts at `at` in the strings.
    pub fn string_at(&self, at: u64) -> (s: &[u8])
        ensures
            s@ == c_string(self@.strings_data, at as int),
    {
        string_in(self.strings_data.as_slice(), at)
    }

    /// The attributes filed in `slot`, which must exist.
    pub fn attributes_in(&self, slot: usize) -> (r: Result<[u64; 8], Error>)
        requires
            slot < self@.attribute_offsets.len(),
        ensures
            match r {
                Ok(attributes) => self@.attributes_at(slot as int) == Ok::<Seq<u64>, ErrorView>(
                    attributes@,
                ),
                Err(e) => self@.attributes_at(slot as int) == Err::<Seq<u64>, ErrorView>(e@),
            },
    {
        let offset = self.attribute_offsets[slot] as usize;
        parse_attributes(self.attribute_data.as_slice(), offset)
    }

    /// The slot that the two-level hash assigns to `path`.
    pub fn slot_for(&self, path: &str) -> (slot: Option<usize>)
        ensures
            match slot {
                Some(slot) => slot_of(self@.redirect_table, path.spec_bytes()) == Some(
                    slot as int,
                ),
                None => slot_of(self@.redirect_table, path.spec_bytes()) is None,
            },
    {
        self.slot_for_bytes(path.as_bytes())
    }

    /// The slot that the two-level hash assigns to the path `path`, given as
    /// bytes.
    pub fn slot_for_bytes(&self, path: &[u8]) -> (slot: Option<usize>)
        ensures
            match slot {
                Some(slot) => slot_of(self@.redirect_table, path@) == Some(slot as int),
                None => slot_of(self@.redirect_table, path@) is None,
            },
    {
        let len = self.redirect_table.len();
        if len == 0 {
            return None;
        }
        let first = (hash_bytes(path, HASH_MULTIPLIER) as u64 % len as u64) as usize;
        let value = self.redirect_table[first];
        if value == 0 {
            None
        } else if value > 0 {
            Some((hash_bytes(path, value) as u64 % len as u64) as usize)
        } else {
            Some((-1 - value) as usize)
        }
    }

    /// The path that `attributes` spell out.
    pub fn path_of(&self, attributes: &[u64; 8]) -> (path: Vec<u8>)
        ensures
            path@ == resource_path(self@.strings_data, attributes@),
    {
        let module = self.string_at(attributes[1]);
        let parent = self.string_at(attributes[2]);
        let base = self.string_at(attributes[3]);
        let extension = self.string_at(attributes[4]);
        let mut expected: Vec<u8> = Vec::new();
        if module.len() > 0 {
            expected.push(47u8);
            append_bytes(&mut expected, module);
            expected.push(47u8);
        }
        if parent.len() > 0 {
            append_bytes(&mut expected, parent);
            expected.push(47u8);
        }
        append_bytes(&mut expected, base);
        if extension.len() > 0 {
            expected.push(46u8);
            append_bytes(&mut expected, extension);
        }
        assert(expected@ =~= resource_path(self@.strings_data, attributes@));
        expected
    }

    /// Whether `attributes` spell out exactly `path`.
    pub fn verify(&self, attributes: &[u64; 8], path: &str) -> (matches: bool)
        ensures
            matches == (resource_path(self@.strings_data, attributes@) == path.spec_bytes()),
    {
        let expected = self.path_of(attributes);
        same_bytes(expected.as_slice(), path.as_bytes())
    }

    /// Whether every slot holds a resource whose own path leads back to the
    /// slot.
    pub fn is_well_formed(&self) -> (well_formed: bool)
        ensures
            well_formed == self@.well_formed(),
    {
        if self.attribute_offsets.len() != self.redirect_table.len() {
            return false;
        }
        let mut slot: usize = 0;
        while slot < self.attribute_offsets.len()
            invariant
                slot <= self@.attribute_offsets.len() == self@.redirect_table.len(),
                forall|s: int|
                    0 <= s < slot ==> (#[trigger] self@.attributes_at(s)) is Ok && slot_of(
                        self@.redirect_table,
                        resource_path(self@.strings_data, self@.attributes_at(s)->Ok_0),
                    ) == Some(s),
            decreases self@.attribute_offsets.len() - slot,
        {
            match self.attributes_in(slot) {
                Err(_) => {
                    assert(!(self@.attributes_at(slot as int) is Ok));
                    return false;
                },
                Ok(attributes) => {
                    let path = self.path_of(&attributes);
                    match self.slot_for_bytes(path.as_slice()) {
                        Some(found) if found == slot => {},
                        _ => {
                            assert(self@.attributes_at(slot as int) is Ok);
                            return false;
                        },
                    }
                },
            }
            slot += 1;
        }
        true
    }

    /// The attributes of the resource filed under `path`, if there is one.
    pub fn find(&self, path: &str) -> (found: Option<[u64; 8]>)
        ensures
            match found {
                Some(attributes) => self@.lookup(path.spec_bytes()) == Some(attributes@),
                None => self@.lookup(path.spec_bytes()) is None,
            },
    {
        match self.slot_for(path) {
            None => None,
            Some(slot) => {
                if slot >= self.attribute_offsets.len() {
                    return None;
                }
                match self.attributes_in(slot) {
                    Err(_) => None,
                    Ok(attributes) => if self.verify(&attributes, path) {
                        Some(attributes)
                    } else {
                        None
                    },
                }
            },
        }
    }
}

} // verus!
