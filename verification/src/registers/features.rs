//! The feature bits of one timer frame, one byte of CNTTIDR.

use crate::bits::{
    lemma_and_not_excludes_u8, lemma_disjoint_untouched_u8, lemma_or_contains_u8,
    lemma_outside_untouched_u8,
};
use vstd::prelude::*;

verus! {

/// Timer feature bits of one frame, as the Counter-timer Timer ID Register
/// reports them.
#[derive(Clone, Copy, Debug, PartialEq, Eq, Structural)]
pub struct Features(pub u8);

impl View for Features {
    type V = u8;

    open spec fn view(&self) -> u8 {
        self.0
    }
}

impl Features {
    /// The frame has a second view, the EL0 frame.
    #[allow(non_snake_case)]
    #[verifier::allow_in_spec]
    pub fn CNTEL0BASE() -> Features
        returns
            Features(0x4),
    {
        Features(0x4)
    }

    /// The frame has virtual capability: the virtual time and offset
    /// registers are implemented.
    #[allow(non_snake_case)]
    #[verifier::allow_in_spec]
    pub fn VIRTUAL() -> Features
        returns
            Features(0x2),
    {
        Features(0x2)
    }

    /// The frame is implemented.
    #[allow(non_snake_case)]
    #[verifier::allow_in_spec]
    pub fn IMPLEMENTED() -> Features
        returns
            Features(0x1),
    {
        Features(0x1)
    }

    /// Holds of the named flags and of nothing else.
    pub open spec fn is_flag(flag: Features) -> bool {
        flag == Features::CNTEL0BASE() || flag == Features::VIRTUAL() || flag ==
            Features::IMPLEMENTED()
    }

    /// The value with no bit set.
    #[verifier::allow_in_spec]
    pub fn empty() -> Features
        returns
            Features(0),
    {
        Features(0)
    }

    /// The value with every named flag set.
    #[verifier::allow_in_spec]
    pub fn all() -> Features
        returns
            Features(0x7),
    {
        Features(0x7)
    }

    /// The raw register word.
    #[verifier::allow_in_spec]
    pub fn bits(&self) -> u8
        returns
            self.0,
    {
        self.0
    }

    /// The value with exactly the given raw word, unnamed bits included.
    #[verifier::allow_in_spec]
    pub fn from_bits_retain(bits: u8) -> Features
        returns
            Features(bits),
    {
        Features(bits)
    }

    /// The value made of the named flags of the given raw word.
    #[verifier::allow_in_spec]
    pub fn from_bits_truncate(bits: u8) -> Features
        returns
            Features(bits & 0x7),
    {
        Features(bits & 0x7)
    }

    /// Whether every bit of `other` is set in `self`.
    #[verifier::allow_in_spec]
    pub fn contains(&self, other: Features) -> bool
        returns
            self.0 & other.0 == other.0,
    {
        self.0 & other.0 == other.0
    }

    /// The bits set in either value.
    #[verifier::allow_in_spec]
    pub fn union(self, other: Features) -> Features
        returns
            Features(self.0 | other.0),
    {
        Features(self.0 | other.0)
    }

    /// The bits set in both values.
    #[verifier::allow_in_spec]
    pub fn intersection(self, other: Features) -> Features
        returns
            Features(self.0 & other.0),
    {
        Features(self.0 & other.0)
    }

    /// The bits of `self` that are not set in `other`.
    #[verifier::allow_in_spec]
    pub fn difference(self, other: Features) -> Features
        returns
            Features(self.0 & !other.0),
    {
        Features(self.0 & !other.0)
    }

    /// The named flags that are not set in `self`.
    #[verifier::allow_in_spec]
    pub fn complement(self) -> Features
        returns
            Features(!self.0 & 0x7),
    {
        Features(!self.0 & 0x7)
    }

    /// Sets the bits of `other`.
    pub fn insert(&mut self, other: Features)
        ensures
            *final(self) == old(self).union(other),
    {
        self.0 = self.0 | other.0;
    }

    /// Clears the bits of `other`.
    pub fn remove(&mut self, other: Features)
        ensures
            *final(self) == old(self).difference(other),
    {
        self.0 = self.0 & !other.0;
    }

    /// Sets the bits of `other` if `value` is true, clears them if not.
    pub fn set(&mut self, other: Features, value: bool)
        ensures
            *final(self) == if value {
                old(self).union(other)
            } else {
                old(self).difference(other)
            },
    {
        if value {
            self.insert(other);
        } else {
            self.remove(other);
        }
    }

    /// A named flag that was set is contained, one that was cleared is not.
    pub proof fn lemma_flag_set_clear(value: Features, flag: Features)
        requires
            Features::is_flag(flag),
        ensures
            value.union(flag).contains(flag),
            !value.difference(flag).contains(flag),
    {
        lemma_or_contains_u8(value.0, flag.0);
        lemma_and_not_excludes_u8(value.0, flag.0);
    }

    /// Setting or clearing any bits leaves every other bit of the value,
    /// named or not, as it was.
    pub proof fn lemma_rest_kept(value: Features, other: Features)
        ensures
            value.union(other)@ & !other@ == value@ & !other@,
            value.difference(other)@ & !other@ == value@ & !other@,
    {
        lemma_outside_untouched_u8(value.0, other.0);
    }

    /// No two named flags share a bit.
    pub proof fn lemma_flags_disjoint(a: Features, b: Features)
        requires
            Features::is_flag(a),
            Features::is_flag(b),
            a != b,
        ensures
            a@ & b@ == 0,
    {
        assert(0x4u8 & 0x2 == 0 && 0x4u8 & 0x1 == 0 && 0x2u8 & 0x4 == 0 && 0x2u8 & 0x1 == 0
            && 0x1u8 & 0x4 == 0 && 0x1u8 & 0x2 == 0) by (bit_vector);
    }

    /// Setting or clearing one named flag leaves every other named flag as it
    /// was.
    pub proof fn lemma_flag_independent(value: Features, flag: Features, other: Features)
        requires
            Features::is_flag(flag),
            Features::is_flag(other),
            flag != other,
        ensures
            value.union(flag).contains(other) == value.contains(other),
            value.difference(flag).contains(other) == value.contains(other),
    {
        Features::lemma_flags_disjoint(flag, other);
        lemma_disjoint_untouched_u8(value.0, flag.0, other.0);
    }
}

} // verus!
