//! Fixed-width integers as they lie in a byte sequence, in either byte order.
//!
//! The spec functions say what a run of bytes denotes; the executable readers
//! hand the work to the `byteorder` crate and are trusted to agree with them.

use byteorder::ByteOrder;
use vstd::prelude::*;

verus! {

/// The order in which the bytes of a multi-byte integer are laid out.
#[derive(Clone, Copy, Debug, PartialEq, Eq, Structural)]
pub enum Endianness {
    Little,
    Big,
}

/// The number that `b` denotes when its first byte is the most significant.
pub open spec fn be_nat(b: Seq<u8>) -> nat
    decreases b.len(),
{
    if b.len() == 0 {
        0
    } else {
        be_nat(b.drop_last()) * 256 + b.last() as nat
    }
}

/// The 16-bit number whose big-endian form starts at `at`.
pub open spec fn be_u16_at(b: Seq<u8>, at: int) -> u16 {
    (b[at] as int * 0x100 + b[at + 1] as int) as u16
}

/// The 32-bit number whose big-endian form starts at `at`.
pub open spec fn be_u32_at(b: Seq<u8>, at: int) -> u32 {
    (b[at] as int * 0x100_0000 + b[at + 1] as int * 0x1_0000 + b[at + 2] as int * 0x100
        + b[at + 3] as int) as u32
}

/// The 32-bit number whose little-endian form starts at `at`.
pub open spec fn le_u32_at(b: Seq<u8>, at: int) -> u32 {
    (b[at + 3] as int * 0x100_0000 + b[at + 2] as int * 0x1_0000 + b[at + 1] as int * 0x100
        + b[at] as int) as u32
}

/// The 16-bit number whose little-endian form starts at `at`.
pub open spec fn le_u16_at(b: Seq<u8>, at: int) -> u16 {
    (b[at + 1] as int * 0x100 + b[at] as int) as u16
}

/// The 32-bit number that starts at `at`, in the given byte order.
pub open spec fn u32_at(b: Seq<u8>, at: int, order: Endianness) -> u32 {
    match order {
        Endianness::Little => le_u32_at(b, at),
        Endianness::Big => be_u32_at(b, at),
    }
}

/// An unsigned 32-bit pattern read as two's complement.
pub open spec fn as_signed(u: u32) -> i32 {
    if u < 0x8000_0000 {
        u as i32
    } else {
        (u - 0x1_0000_0000) as i32
    }
}

/// The signed 32-bit number that starts at `at`, in the given byte order.
pub open spec fn i32_at(b: Seq<u8>, at: int, order: Endianness) -> i32 {
    as_signed(u32_at(b, at, order))
}

/// Calls `byteorder::BigEndian::read_u16` on the bytes from `at` on. The crate
/// returns `u16::from_be_bytes` of the first two of them, which is the number
/// claimed here. It panics on fewer than two bytes, which `requires` rules out.
#[verifier::external_body]
pub(crate) fn read_be_u16(buf: &[u8], at: usize) -> (v: u16)
    requires
        at + 2 <= buf@.len(),
    ensures
        v == be_u16_at(buf@, at as int),
{
    byteorder::BigEndian::read_u16(&buf[at..])
}

/// Calls `byteorder::BigEndian::read_u32` on the bytes from `at` on. The crate
/// returns `u32::from_be_bytes` of the first four of them, which is the number
/// claimed here. It panics on fewer than four bytes, which `requires` rules out.
#[verifier::external_body]
pub(crate) fn read_be_u32(buf: &[u8], at: usize) -> (v: u32)
    requires
        at + 4 <= buf@.len(),
    ensures
        v == be_u32_at(buf@, at as int),
{
    byteorder::BigEndian::read_u32(&buf[at..])
}

/// Calls `byteorder::BigEndian::read_i32` on the bytes from `at` on. The crate
/// reads the unsigned number and casts it to `i32`, which keeps the bit
/// pattern. It panics on fewer than four bytes, which `requires` rules out.
#[verifier::external_body]
pub(crate) fn read_be_i32(buf: &[u8], at: usize) -> (v: i32)
    requires
        at + 4 <= buf@.len(),
    ensures
        v == as_signed(be_u32_at(buf@, at as int)),
{
    byteorder::BigEndian::read_i32(&buf[at..])
}

/// Calls `byteorder::BigEndian::read_uint` on `n` bytes from `at` on. The crate
/// copies them to the low end of eight zero bytes and returns
/// `u64::from_be_bytes` of those. It panics unless `1 <= n <= 8` and `n` bytes
/// are there, which `requires` demands.
#[verifier::external_body]
pub(crate) fn read_be_uint(buf: &[u8], at: usize, n: usize) -> (v: u64)
    requires
        1 <= n <= 8,
        at + n <= buf@.len(),
    ensures
        v == be_nat(buf@.subrange(at as int, at + n)),
{
    byteorder::BigEndian::read_uint(&buf[at..], n)
}

/// Calls `byteorder::LittleEndian::read_u32` on the bytes from `at` on. The
/// crate returns `u32::from_le_bytes` of the first four of them. It panics on
/// fewer than four bytes, which `requires` rules out.
#[verifier::external_body]
pub(crate) fn read_le_u32(buf: &[u8], at: usize) -> (v: u32)
    requires
        at + 4 <= buf@.len(),
    ensures
        v == le_u32_at(buf@, at as int),
{
    byteorder::LittleEndian::read_u32(&buf[at..])
}

/// Calls `byteorder::LittleEndian::read_i32` on the bytes from `at` on. The
/// crate reads the unsigned number and casts it to `i32`, which keeps the bit
/// pattern. It panics on fewer than four bytes, which `requires` rules out.
#[verifier::external_body]
pub(crate) fn read_le_i32(buf: &[u8], at: usize) -> (v: i32)
    requires
        at + 4 <= buf@.len(),
    ensures
        v == as_signed(le_u32_at(buf@, at as int)),
{
    byteorder::LittleEndian::read_i32(&buf[at..])
}

/// Calls `byteorder::NativeEndian::read_u16`. `NativeEndian` is an alias of
/// `LittleEndian` or of `BigEndian`, whichever the target is, so the result is
/// one of the two readings; which one depends on the machine.
#[verifier::external_body]
pub(crate) fn read_native_u16(buf: &[u8]) -> (v: u16)
    requires
        2 <= buf@.len(),
    ensures
        v == le_u16_at(buf@, 0) || v == be_u16_at(buf@, 0),
{
    byteorder::NativeEndian::read_u16(buf)
}

impl Endianness {
    /// The byte order under which the bytes 1 and 0 read as `probe`: the
    /// little-endian reading of them is 1, so that number stands for
    /// `Little`, and any other for `Big`.
    pub open spec fn spec_of_probe(probe: u16) -> Endianness {
        if probe == 1 {
            Endianness::Little
        } else {
            Endianness::Big
        }
    }

    /// The byte order under which the bytes 1 and 0 read as `probe`.
    pub fn of_probe(probe: u16) -> (order: Endianness)
        ensures
            order == Endianness::spec_of_probe(probe),
    {
        if probe == 1 {
            Endianness::Little
        } else {
            Endianness::Big
        }
    }
}

/// The byte order of the machine this runs on: the bytes 1 and 0 are read as
/// the machine reads them, and the number that comes out tells the order.
/// Which number comes out depends on the machine alone, so nothing is
/// promised of the result here; `Endianness::of_probe` says what each
/// reading leads to.
pub fn native_endianness() -> Endianness {
    let probe: [u8; 2] = [1, 0];
    Endianness::of_probe(read_native_u16(probe.as_slice()))
}

/// Reads an unsigned 32-bit number at `at` in the given byte order.
pub(crate) fn read_u32(buf: &[u8], at: usize, order: Endianness) -> (v: u32)
    requires
        at + 4 <= buf@.len(),
    ensures
        v == u32_at(buf@, at as int, order),
{
    match order {
        Endianness::Little => read_le_u32(buf, at),
        Endianness::Big => read_be_u32(buf, at),
    }
}

/// Reads a signed 32-bit number at `at` in the given byte order.
pub(crate) fn read_i32(buf: &[u8], at: usize, order: Endianness) -> (v: i32)
    requires
        at + 4 <= buf@.len(),
    ensures
        v == i32_at(buf@, at as int, order),
{
    match order {
        Endianness::Little => read_le_i32(buf, at),
        Endianness::Big => read_be_i32(buf, at),
    }
}

/// Whether two byte strings are the same.
pub fn same_bytes(a: &[u8], b: &[u8]) -> (same: bool)
    ensures
        same == (a@ == b@),
{
    if a.len() != b.len() {
        return false;
    }
    let mut i: usize = 0;
    while i < a.len()
        invariant
            i <= a@.len() == b@.len(),
            forall|k: int| 0 <= k < i ==> a@[k] == b@[k],
        decreases a@.len() - i,
    {
        if a[i] != b[i] {
            return false;
        }
        i += 1;
    }
    assert(a@ =~= b@);
    true
}

/// Appends a copy of `part` to `out`.
pub fn append_bytes(out: &mut Vec<u8>, part: &[u8])
    ensures
        final(out)@ == old(out)@ + part@,
{
    let mut i: usize = 0;
    while i < part.len()
        invariant
            i <= part@.len(),
            out@ == old(out)@ + part@.take(i as int),
        decreases part@.len() - i,
    {
        out.push(part[i]);
        assert(part@.take(i + 1) =~= part@.take(i as int).push(part@[i as int]));
        i += 1;
    }
    assert(part@.take(i as int) =~= part@);
}

} // verus!
