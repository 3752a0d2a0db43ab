//! The flags that steer how a level is decoded.

use vstd::prelude::*;

verus! {

/// Decode PVRTC1 output to the next larger power of two.
pub const DECODE_FLAGS_PVRTC_DECODE_TO_NEXT_POW2: u32 = 2;

/// Decode the alpha data of a level into a format that has no alpha.
pub const DECODE_FLAGS_TRANSCODE_ALPHA_DATA_TO_OPAQUE_FORMATS: u32 = 4;

/// Never write a BC1 block that uses three colours.
pub const DECODE_FLAGS_BC1_FORBID_THREE_COLOR_BLOCKS: u32 = 8;

/// The output buffer already holds alpha indices.
pub const DECODE_FLAGS_OUTPUT_HAS_ALPHA_INDICES: u32 = 16;

/// Prefer quality over speed.
pub const DECODE_FLAGS_HIGH_QUALITY: u32 = 32;

/// Every flag at once.
pub const DECODE_FLAGS_ALL: u32 = 62;

/// A set of decode flags: a word in which no bit but those of the named
/// flags is set.
#[derive(Clone, Copy, Debug, PartialEq, Eq, Structural)]
pub struct DecodeFlags {
    bits: u32,
}

/// Whether `bits` holds the bits of named flags only.
pub open spec fn known_decode_flags(bits: u32) -> bool {
    bits & !DECODE_FLAGS_ALL == 0
}

impl DecodeFlags {
    /// A set never holds a bit that names no flag.
    #[verifier::type_invariant]
    spec fn only_known_flags(self) -> bool {
        known_decode_flags(self.bits)
    }

    /// The flags as a word, one bit for each flag that is set.
    pub closed spec fn spec_bits(self) -> u32 {
        self.bits
    }

    /// Whether every flag of `other` is set in this set too.
    pub open spec fn spec_contains(self, other: DecodeFlags) -> bool {
        self.spec_bits() & other.spec_bits() == other.spec_bits()
    }

    /// The set with no flag in it.
    pub fn empty() -> (flags: DecodeFlags)
        ensures
            flags.spec_bits() == 0,
    {
        assert(0u32 & !62u32 == 0) by (bit_vector);
        DecodeFlags { bits: 0 }
    }

    /// The set whose flags are the bits of `bits`, or `None` where `bits`
    /// holds a bit that names no flag.
    pub fn from_bits(bits: u32) -> (flags: Option<DecodeFlags>)
        ensures
            flags is Some <==> known_decode_flags(bits),
            flags matches Some(set) ==> set.spec_bits() == bits,
    {
        if bits & !DECODE_FLAGS_ALL == 0 {
            Some(DecodeFlags { bits })
        } else {
            None
        }
    }

    /// The flags as a word, one bit for each flag that is set.
    #[verifier::when_used_as_spec(spec_bits)]
    pub fn bits(self) -> (bits: u32)
        ensures
            bits == self.spec_bits(),
            known_decode_flags(bits),
    {
        proof {
            use_type_invariant(self);
        }
        self.bits
    }

    /// Whether every flag of `other` is set in this set too.
    #[verifier::when_used_as_spec(spec_contains)]
    pub fn contains(self, other: DecodeFlags) -> (contained: bool)
        ensures
            contained == self.spec_contains(other),
    {
        self.bits & other.bits == other.bits
    }

    /// The set that holds the flags of both sets.
    pub fn union(self, other: DecodeFlags) -> (both: DecodeFlags)
        ensures
            both.spec_bits() == self.spec_bits() | other.spec_bits(),
    {
        proof {
            use_type_invariant(self);
            use_type_invariant(other);
            let a = self.bits;
            let b = other.bits;
            assert((a | b) & !62u32 == 0) by (bit_vector)
                requires
                    a & !62u32 == 0,
                    b & !62u32 == 0,
            ;
        }
        DecodeFlags { bits: self.bits | other.bits }
    }
}

/// A union holds what either set holds: each of the two sets is contained
/// in it, and a set that contains both contains the union.
pub proof fn union_is_least_upper_bound(a: DecodeFlags, b: DecodeFlags, both: DecodeFlags, c: DecodeFlags)
    requires
        both.spec_bits() == a.spec_bits() | b.spec_bits(),
    ensures
        both.spec_contains(a),
        both.spec_contains(b),
        c.spec_contains(a) && c.spec_contains(b) ==> c.spec_contains(both),
{
    let x = a.spec_bits();
    let y = b.spec_bits();
    let z = c.spec_bits();
    assert((x | y) & x == x) by (bit_vector);
    assert((x | y) & y == y) by (bit_vector);
    assert((z & x == x && z & y == y) ==> z & (x | y) == (x | y)) by (bit_vector);
}

} // verus!
