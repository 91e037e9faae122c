//! CNTEL0ACR, the Counter-timer EL0 Access Control Register.

use crate::bits::{
    lemma_and_not_excludes, lemma_disjoint_untouched, lemma_or_contains,
    lemma_outside_untouched,
};
use vstd::prelude::*;

verus! {

/// Counter-timer EL0 Access Control Register: what the second view of a
/// frame may read.
#[derive(Clone, Copy, Debug, PartialEq, Eq, Structural)]
pub struct CntEl0Acr(pub u32);

impl View for CntEl0Acr {
    type V = u32;

    open spec fn view(&self) -> u32 {
        self.0
    }
}

impl CntEl0Acr {
    /// Second view access to the physical timer registers.
    #[allow(non_snake_case)]
    #[verifier::allow_in_spec]
    pub fn EL0PTEN() -> CntEl0Acr
        returns
            CntEl0Acr(0x200),
    {
        CntEl0Acr(0x200)
    }

    /// Second view access to the virtual timer registers.
    #[allow(non_snake_case)]
    #[verifier::allow_in_spec]
    pub fn EL0VTEN() -> CntEl0Acr
        returns
            CntEl0Acr(0x100),
    {
        CntEl0Acr(0x100)
    }

    /// Second view read access to the virtual count and the frequency.
    #[allow(non_snake_case)]
    #[verifier::allow_in_spec]
    pub fn EL0VCTEN() -> CntEl0Acr
        returns
            CntEl0Acr(0x2),
    {
        CntEl0Acr(0x2)
    }

    /// Second view read access to the physical count and the frequency.
    #[allow(non_snake_case)]
    #[verifier::allow_in_spec]
    pub fn EL0PCTEN() -> CntEl0Acr
        returns
            CntEl0Acr(0x1),
    {
        CntEl0Acr(0x1)
    }

    /// Holds of the named flags and of nothing else.
    pub open spec fn is_flag(flag: CntEl0Acr) -> bool {
        flag == CntEl0Acr::EL0PTEN() || flag == CntEl0Acr::EL0VTEN() || flag ==
            CntEl0Acr::EL0VCTEN() || flag == CntEl0Acr::EL0PCTEN()
    }

    /// The value with no bit set.
    #[verifier::allow_in_spec]
    pub fn empty() -> CntEl0Acr
        returns
            CntEl0Acr(0),
    {
        CntEl0Acr(0)
    }

    /// The value with every named flag set.
    #[verifier::allow_in_spec]
    pub fn all() -> CntEl0Acr
        returns
            CntEl0Acr(0x303),
    {
        CntEl0Acr(0x303)
    }

    /// The raw register word.
    #[verifier::allow_in_spec]
    pub fn bits(&self) -> u32
        returns
            self.0,
    {
        self.0
    }

    /// The value with exactly the given raw word, unnamed bits included.
    #[verifier::allow_in_spec]
    pub fn from_bits_retain(bits: u32) -> CntEl0Acr
        returns
            CntEl0Acr(bits),
    {
        CntEl0Acr(bits)
    }

    /// The value made of the named flags of the given raw word.
    #[verifier::allow_in_spec]
    pub fn from_bits_truncate(bits: u32) -> CntEl0Acr
        returns
            CntEl0Acr(bits & 0x303),
    {
        CntEl0Acr(bits & 0x303)
    }

    /// Whether every bit of `other` is set in `self`.
    #[verifier::allow_in_spec]
    pub fn contains(&self, other: CntEl0Acr) -> bool
        returns
            self.0 & other.0 == other.0,
    {
        self.0 & other.0 == other.0
    }

    /// The bits set in either value.
    #[verifier::allow_in_spec]
    pub fn union(self, other: CntEl0Acr) -> CntEl0Acr
        returns
            CntEl0Acr(self.0 | other.0),
    {
        CntEl0Acr(self.0 | other.0)
    }

    /// The bits set in both values.
    #[verifier::allow_in_spec]
    pub fn intersection(self, other: CntEl0Acr) -> CntEl0Acr
        returns
            CntEl0Acr(self.0 & other.0),
    {
        CntEl0Acr(self.0 & other.0)
    }

    /// The bits of `self` that are not set in `other`.
    #[verifier::allow_in_spec]
    pub fn difference(self, other: CntEl0Acr) -> CntEl0Acr
        returns
            CntEl0Acr(self.0 & !other.0),
    {
        CntEl0Acr(self.0 & !other.0)
    }

    /// The named flags that are not set in `self`.
    #[verifier::allow_in_spec]
    pub fn complement(self) -> CntEl0Acr
        returns
            CntEl0Acr(!self.0 & 0x303),
    {
        CntEl0Acr(!self.0 & 0x303)
    }

    /// Sets the bits of `other`.
    pub fn insert(&mut self, other: CntEl0Acr)
        ensures
            *final(self) == old(self).union(other),
    {
        self.0 = self.0 | other.0;
    }

    /// Clears the bits of `other`.
    pub fn remove(&mut self, other: CntEl0Acr)
        ensures
            *final(self) == old(self).difference(other),
    {
        self.0 = self.0 & !other.0;
    }

    /// Sets the bits of `other` if `value` is true, clears them if not.
    pub fn set(&mut self, other: CntEl0Acr, value: bool)
        ensures
            *final(self) == if value {
                old(self).union(other)
            } else {
                old(self).difference(other)
            },
    {
        if value {
            self.insert(other);
        } else {
            self.remove(other);
        }
    }

    /// A named flag that was set is contained, one that was cleared is not.
    pub proof fn lemma_flag_set_clear(value: CntEl0Acr, flag: CntEl0Acr)
        requires
            CntEl0Acr::is_flag(flag),
        ensures
            value.union(flag).contains(flag),
            !value.difference(flag).contains(flag),
    {
        lemma_or_contains(value.0, flag.0);
        lemma_and_not_excludes(value.0, flag.0);
    }

    /// Setting or clearing any bits leaves every other bit of the value,
    /// named or not, as it was.
    pub proof fn lemma_rest_kept(value: CntEl0Acr, other: CntEl0Acr)
        ensures
            value.union(other)@ & !other@ == value@ & !other@,
            value.difference(other)@ & !other@ == value@ & !other@,
    {
        lemma_outside_untouched(value.0, other.0);
    }

    /// No two named flags share a bit.
    pub proof fn lemma_flags_disjoint(a: CntEl0Acr, b: CntEl0Acr)
        requires
            CntEl0Acr::is_flag(a),
            CntEl0Acr::is_flag(b),
            a != b,
        ensures
            a@ & b@ == 0,
    {
        assert(0x200u32 & 0x100 == 0 && 0x200u32 & 0x2 == 0 && 0x200u32 & 0x1 == 0
            && 0x100u32 & 0x200 == 0 && 0x100u32 & 0x2 == 0 && 0x100u32 & 0x1 == 0
            && 0x2u32 & 0x200 == 0 && 0x2u32 & 0x100 == 0 && 0x2u32 & 0x1 == 0
            && 0x1u32 & 0x200 == 0 && 0x1u32 & 0x100 == 0 && 0x1u32 & 0x2 == 0) by (bit_vector);
    }

    /// Setting or clearing one named flag leaves every other named flag as it
    /// was.
    pub proof fn lemma_flag_independent(value: CntEl0Acr, flag: CntEl0Acr, other: CntEl0Acr)
        requires
            CntEl0Acr::is_flag(flag),
            CntEl0Acr::is_flag(other),
            flag != other,
        ensures
            value.union(flag).contains(other) == value.contains(other),
            value.difference(flag).contains(other) == value.contains(other),
    {
        CntEl0Acr::lemma_flags_disjoint(flag, other);
        lemma_disjoint_untouched(value.0, flag.0, other.0);
    }
}

} // verus!
