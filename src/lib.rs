//! Modality flags: a closed set of named bits (audio, image, text, video,
//! other) that combine by union and intersection and convert to and from
//! lists of lowercase names.
use vstd::prelude::*;

pub mod laws;
pub mod names;
pub mod py;

pub use py::PyModality;

verus! {

/// The bits of the empty set and of each flag, in declaration order.
pub const NONE_BITS: u32 = 0;

pub const AUDIO_BIT: u32 = 1;

pub const IMAGE_BIT: u32 = 2;

pub const TEXT_BIT: u32 = 4;

pub const VIDEO_BIT: u32 = 8;

pub const OTHER_BIT: u32 = 16;

/// The bits of every defined flag together (their union: see `laws::lemma_flag_bits`).
pub const ALL_BITS: u32 = 31;

/// The bit of the `i`-th flag, in declaration order.
pub open spec fn flag_bit(i: int) -> u32 {
    if i == 0 {
        AUDIO_BIT
    } else if i == 1 {
        IMAGE_BIT
    } else if i == 2 {
        TEXT_BIT
    } else if i == 3 {
        VIDEO_BIT
    } else {
        OTHER_BIT
    }
}

/// Every bit of `query` is set in `set`.
pub open spec fn contains_bits(set: u32, query: u32) -> bool {
    set & query == query
}

/// A set of modality flags, stored as a bitmask over the five defined flags.
#[derive(Debug, Clone, Copy, PartialEq, Eq, Structural, Hash)]
pub struct Modality {
    bits: u32,
}

impl Modality {
    /// No bit outside the defined flags is set.
    pub open spec fn wf(self) -> bool {
        self@ <= ALL_BITS
    }
}

impl View for Modality {
    type V = u32;

    closed spec fn view(&self) -> u32 {
        self.bits
    }
}

impl Modality {
    /// No bit outside the defined flags is ever set.
    #[verifier::type_invariant]
    spec fn inv(self) -> bool {
        self.bits <= ALL_BITS
    }

    /// The empty set.
    pub fn none() -> (r: Modality)
        ensures
            r.wf(),
            r@ == NONE_BITS,
    {
        Modality { bits: NONE_BITS }
    }

    pub fn audio() -> (r: Modality)
        ensures
            r.wf(),
            r@ == AUDIO_BIT,
    {
        Modality { bits: AUDIO_BIT }
    }

    pub fn image() -> (r: Modality)
        ensures
            r.wf(),
            r@ == IMAGE_BIT,
    {
        Modality { bits: IMAGE_BIT }
    }

    pub fn text() -> (r: Modality)
        ensures
            r.wf(),
            r@ == TEXT_BIT,
    {
        Modality { bits: TEXT_BIT }
    }

    pub fn video() -> (r: Modality)
        ensures
            r.wf(),
            r@ == VIDEO_BIT,
    {
        Modality { bits: VIDEO_BIT }
    }

    pub fn other() -> (r: Modality)
        ensures
            r.wf(),
            r@ == OTHER_BIT,
    {
        Modality { bits: OTHER_BIT }
    }

    /// Every defined flag.
    pub fn all() -> (r: Modality)
        ensures
            r.wf(),
            r@ == ALL_BITS,
    {
        Modality { bits: ALL_BITS }
    }

    /// The underlying integer.
    pub fn bits(self) -> (r: u32)
        ensures
            r == self@,
            self.wf(),
    {
        proof {
            use_type_invariant(self);
        }
        self.bits
    }

    /// The flags of `bits`, dropping any bit outside the defined flags.
    pub fn from_bits_truncate(bits: u32) -> (r: Modality)
        ensures
            r.wf(),
            r@ == bits & ALL_BITS,
    {
        assert(bits & ALL_BITS <= ALL_BITS) by (bit_vector);
        Modality { bits: bits & ALL_BITS }
    }

    /// The flags present in either operand.
    pub fn union(self, other: Modality) -> (r: Modality)
        ensures
            r.wf(),
            r@ == self@ | other@,
    {
        proof {
            use_type_invariant(self);
            use_type_invariant(other);
            let (a, b) = (self.bits, other.bits);
            assert(a <= 31 && b <= 31 ==> a | b <= 31) by (bit_vector);
        }
        Modality { bits: self.bits | other.bits }
    }

    /// The flags present in both operands.
    pub fn intersect(self, other: Modality) -> (r: Modality)
        ensures
            r.wf(),
            r@ == self@ & other@,
    {
        proof {
            use_type_invariant(self);
            let (a, b) = (self.bits, other.bits);
            assert(a <= 31 ==> a & b <= 31) by (bit_vector);
        }
        Modality { bits: self.bits & other.bits }
    }

    /// Every flag of `query` is present in `self`. A query of no flags is
    /// contained in every set.
    pub fn contains(self, query: Modality) -> (r: bool)
        ensures
            r == contains_bits(self@, query@),
    {
        (self.bits & query.bits) == query.bits
    }
}

impl core::ops::BitOr for Modality {
    type Output = Modality;

    fn bitor(self, rhs: Modality) -> (r: Modality)
        ensures
            r.wf(),
            r@ == self@ | rhs@,
    {
        self.union(rhs)
    }
}

impl core::ops::BitAnd for Modality {
    type Output = Modality;

    fn bitand(self, rhs: Modality) -> (r: Modality)
        ensures
            r@ == self@ & rhs@,
    {
        self.intersect(rhs)
    }
}

impl vstd::std_specs::ops::BitAndSpecImpl for Modality {
    open spec fn obeys_bitand_spec() -> bool {
        true
    }

    open spec fn bitand_req(self, rhs: Modality) -> bool {
        true
    }

    closed spec fn bitand_spec(self, rhs: Modality) -> Modality {
        Modality { bits: self.bits & rhs.bits }
    }
}

impl vstd::std_specs::ops::BitOrSpecImpl for Modality {
    open spec fn obeys_bitor_spec() -> bool {
        true
    }

    open spec fn bitor_req(self, rhs: Modality) -> bool {
        true
    }

    closed spec fn bitor_spec(self, rhs: Modality) -> Modality {
        Modality { bits: self.bits | rhs.bits }
    }
}

} // verus!
