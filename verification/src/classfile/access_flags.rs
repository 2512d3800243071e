//! The access and property flags of classes, fields and methods.

use vstd::prelude::*;

verus! {

/// A set of access flags, one bit each. The constants name the bits; two
/// names share a bit where its meaning depends on what is flagged.
#[derive(Clone, Copy, Debug, PartialEq, Eq, Structural)]
pub struct AccessFlags {
    bits: u16,
}

/// All bits that name a flag.
pub const KNOWN_BITS: u16 = 0xffff;

impl AccessFlags {
    pub const PUBLIC: u16 = 0x0001;

    pub const PRIVATE: u16 = 0x0002;

    pub const PROTECTED: u16 = 0x0004;

    pub const STATIC: u16 = 0x0008;

    pub const FINAL: u16 = 0x0010;

    pub const SYNCHRONIZED: u16 = 0x0020;

    pub const SUPER: u16 = 0x0020;

    pub const VOLATILE: u16 = 0x0040;

    pub const BRIDGE: u16 = 0x0040;

    pub const TRANSIENT: u16 = 0x0080;

    pub const VARARGS: u16 = 0x0080;

    pub const NATIVE: u16 = 0x0100;

    pub const INTERFACE: u16 = 0x0200;

    pub const ABSTRACT: u16 = 0x0400;

    pub const STRICT: u16 = 0x0800;

    pub const SYNTHETIC: u16 = 0x1000;

    pub const ANNOTATION: u16 = 0x2000;

    pub const ENUM: u16 = 0x4000;

    pub const MODULE: u16 = 0x8000;

    /// The bits of the set.
    pub closed spec fn spec_bits(self) -> u16 {
        self.bits
    }

    /// Whether every flag whose bit is set in `flags` is in this set.
    pub open spec fn spec_contains(self, flags: u16) -> bool {
        self.spec_bits() & flags == flags
    }

    /// The set with the flags whose bits are set in `bits`, without the bits
    /// that name no flag.
    pub closed spec fn truncated(bits: u16) -> AccessFlags {
        AccessFlags { bits: bits & KNOWN_BITS }
    }

    /// The set with the flags whose bits are set in `bits`. Bits that name
    /// no flag are dropped.
    pub fn from_bits_truncate(bits: u16) -> (flags: AccessFlags)
        ensures
            flags == AccessFlags::truncated(bits),
            flags.spec_bits() == bits & KNOWN_BITS,
    {
        AccessFlags { bits: bits & KNOWN_BITS }
    }

    /// The bits of a truncated set are the known ones among those given.
    pub proof fn lemma_truncated_bits(bits: u16)
        ensures
            AccessFlags::truncated(bits).spec_bits() == bits & KNOWN_BITS,
    {
    }

    /// The bits of the set.
    pub fn bits(&self) -> (bits: u16)
        ensures
            bits == self.spec_bits(),
    {
        self.bits
    }

    /// Whether every flag whose bit is set in `flags` is in this set.
    pub fn contains(&self, flags: u16) -> (all: bool)
        ensures
            all == self.spec_contains(flags),
    {
        self.bits & flags == flags
    }
}

} // verus!
