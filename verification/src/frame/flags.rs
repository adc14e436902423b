//! The flag byte of a frame header: an open set of bits.
use vstd::prelude::*;

verus! {

/// Bit that marks a compressed body.
pub const COMPRESSED_BIT: u8 = 0x01;

/// Bit that asks for, or announces, tracing.
pub const TRACING_BIT: u8 = 0x02;

/// Every bit that has a meaning.
pub const DEFINED_BITS: u8 = 0x03;

/// A set of header flags. Bits without a meaning are carried along
/// unchanged, so that a header can be echoed byte for byte.
#[derive(Debug, Clone, Copy, PartialEq, Eq, Structural)]
pub struct Flags {
    pub bits: u8,
}

impl Flags {
    /// The empty set.
    pub fn none() -> (r: Flags)
        ensures
            r.bits == 0,
    {
        Flags { bits: 0 }
    }

    /// The set that holds only the compression flag.
    pub fn compressed() -> (r: Flags)
        ensures
            r.bits == COMPRESSED_BIT,
    {
        Flags { bits: COMPRESSED_BIT }
    }

    /// The set that holds only the tracing flag.
    pub fn tracing() -> (r: Flags)
        ensures
            r.bits == TRACING_BIT,
    {
        Flags { bits: TRACING_BIT }
    }

    /// The set with exactly the bits of `bits`, known or not.
    pub fn from_bits_retain(bits: u8) -> (r: Flags)
        ensures
            r.bits == bits,
    {
        Flags { bits }
    }

    /// The set with the bits of `bits` that have a meaning; the others are
    /// dropped.
    pub fn from_bits_truncate(bits: u8) -> (r: Flags)
        ensures
            r.bits == bits & DEFINED_BITS,
    {
        Flags { bits: bits & DEFINED_BITS }
    }

    /// The set with the bits of `bits`, if all of them have a meaning.
    pub fn from_bits(bits: u8) -> (r: Option<Flags>)
        ensures
            r == (if bits & !DEFINED_BITS == 0 {
                Some(Flags { bits })
            } else {
                None::<Flags>
            }),
    {
        if bits & !DEFINED_BITS == 0 {
            Some(Flags { bits })
        } else {
            None
        }
    }

    /// The raw byte.
    pub fn bits(&self) -> (r: u8)
        ensures
            r == self.bits,
    {
        self.bits
    }

    /// Whether no bit is set.
    pub fn is_empty(&self) -> (r: bool)
        ensures
            r == (self.bits == 0),
    {
        self.bits == 0
    }

    /// Whether every bit of `other` is set in `self`.
    pub open spec fn spec_contains(self, other: Flags) -> bool {
        self.bits & other.bits == other.bits
    }

    /// Whether every bit of `other` is set in `self`.
    pub fn contains(&self, other: Flags) -> (r: bool)
        ensures
            r == self.spec_contains(other),
    {
        self.bits & other.bits == other.bits
    }

    /// The set of the bits that are in `self`, in `other` or in both.
    pub fn union(&self, other: Flags) -> (r: Flags)
        ensures
            r.bits == self.bits | other.bits,
    {
        Flags { bits: self.bits | other.bits }
    }
}

} // verus!
