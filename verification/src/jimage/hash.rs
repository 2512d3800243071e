//! The hash that the index is built on.

use vstd::prelude::*;
use vstd::string::StringSliceAdditionalSpecFns;

verus! {

/// The multiplier of the hash, which is also the seed of the first level.
pub const HASH_MULTIPLIER: i32 = 0x0100_0193;

/// A 32-bit two's complement number read as unsigned.
pub open spec fn as_unsigned(i: i32) -> u32 {
    if i >= 0 {
        i as u32
    } else {
        (i + 0x1_0000_0000) as u32
    }
}

/// The running hash after folding `data` into `seed`: each byte multiplies the
/// state by the multiplier, modulo 2^32, and is then xor-ed in.
pub open spec fn hash_fold(data: Seq<u8>, seed: u32) -> u32
    decreases data.len(),
{
    if data.len() == 0 {
        seed
    } else {
        (((hash_fold(data.drop_last(), seed) as nat * 0x0100_0193) % 0x1_0000_0000) as u32)
            ^ (data.last() as u32)
    }
}

/// The hash of `data` under `seed`: the folded state, cut to 31 bits.
pub open spec fn hash_of(data: Seq<u8>, seed: i32) -> i32 {
    (hash_fold(data, as_unsigned(seed)) & 0x7fff_ffff) as i32
}

/// Hashes the bytes of `data`, starting from `seed`.
pub fn hash(data: &str, seed: i32) -> (h: i32)
    ensures
        h == hash_of(data.spec_bytes(), seed),
        0 <= h,
{
    hash_bytes(data.as_bytes(), seed)
}

/// Hashes `bytes`, starting from `seed`.
pub fn hash_bytes(bytes: &[u8], seed: i32) -> (h: i32)
    ensures
        h == hash_of(bytes@, seed),
        0 <= h,
{
    let mut state: u32 = seed as u32;
    assert(state == as_unsigned(seed)) by (bit_vector)
        requires
            state == seed as u32,
    ;
    let mut i: usize = 0;
    while i < bytes.len()
        invariant
            i <= bytes@.len(),
            state == hash_fold(bytes@.take(i as int), as_unsigned(seed)),
        decreases bytes@.len() - i,
    {
        assert(bytes@.take(i + 1).drop_last() =~= bytes@.take(i as int));
        state = state.wrapping_mul(HASH_MULTIPLIER as u32) ^ (bytes[i] as u32);
        i += 1;
    }
    assert(bytes@.take(i as int) =~= bytes@);
    let masked: u32 = state & 0x7fff_ffff;
    assert(masked < 0x8000_0000) by (bit_vector)
        requires
            masked == state & 0x7fff_ffff,
    ;
    masked as i32
}

} // verus!
