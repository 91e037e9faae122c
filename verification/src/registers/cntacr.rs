//! CNTACR, the Counter-timer Access Control Register.

use crate::bits::{
    lemma_and_not_excludes, lemma_disjoint_untouched, lemma_or_contains,
    lemma_outside_untouched,
};
use vstd::prelude::*;

verus! {

/// Counter-timer Access Control Register: the top-level access rights to
/// the registers of one timer frame.
#[derive(Clone, Copy, Debug, PartialEq, Eq, Structural)]
pub struct CntAcr(pub u32);

impl View for CntAcr {
    type V = u32;

    open spec fn view(&self) -> u32 {
        self.0
    }
}

impl CntAcr {
    /// Read/write access to the EL1 physical timer registers.
    #[allow(non_snake_case)]
    #[verifier::allow_in_spec]
    pub fn RWPT() -> CntAcr
        returns
            CntAcr(0x20),
    {
        CntAcr(0x20)
    }

    /// Read/write access to the virtual timer registers.
    #[allow(non_snake_case)]
    #[verifier::allow_in_spec]
    pub fn RWVT() -> CntAcr
        returns
            CntAcr(0x10),
    {
        CntAcr(0x10)
    }

    /// Read-only access to the virtual offset.
    #[allow(non_snake_case)]
    #[verifier::allow_in_spec]
    pub fn RVOFF() -> CntAcr
        returns
            CntAcr(0x8),
    {
        CntAcr(0x8)
    }

    /// Read-only access to the frequency.
    #[allow(non_snake_case)]
    #[verifier::allow_in_spec]
    pub fn RFRQ() -> CntAcr
        returns
            CntAcr(0x4),
    {
        CntAcr(0x4)
    }

    /// Read-only access to the virtual count.
    #[allow(non_snake_case)]
    #[verifier::allow_in_spec]
    pub fn RVCT() -> CntAcr
        returns
            CntAcr(0x2),
    {
        CntAcr(0x2)
    }

    /// Read-only access to the physical count.
    #[allow(non_snake_case)]
    #[verifier::allow_in_spec]
    pub fn RPCT() -> CntAcr
        returns
            CntAcr(0x1),
    {
        CntAcr(0x1)
    }

    /// Holds of the named flags and of nothing else.
    pub open spec fn is_flag(flag: CntAcr) -> bool {
        flag == CntAcr::RWPT() || flag == CntAcr::RWVT() || flag == CntAcr::RVOFF() || flag ==
            CntAcr::RFRQ() || flag == CntAcr::RVCT() || flag == CntAcr::RPCT()
    }

    /// The value with no bit set.
    #[verifier::allow_in_spec]
    pub fn empty() -> CntAcr
        returns
            CntAcr(0),
    {
        CntAcr(0)
    }

    /// The value with every named flag set.
    #[verifier::allow_in_spec]
    pub fn all() -> CntAcr
        returns
            CntAcr(0x3f),
    {
        CntAcr(0x3f)
    }

    /// The raw register word.
    #[verifier::allow_in_spec]
    pub fn bits(&self) -> u32
        returns
            self.0,
    {
        self.0
    }

    /// The value with exactly the given raw word, unnamed bits included.
    #[verifier::allow_in_spec]
    pub fn from_bits_retain(bits: u32) -> CntAcr
        returns
            CntAcr(bits),
    {
        CntAcr(bits)
    }

    /// The value made of the named flags of the given raw word.
    #[verifier::allow_in_spec]
    pub fn from_bits_truncate(bits: u32) -> CntAcr
        returns
            CntAcr(bits & 0x3f),
    {
        CntAcr(bits & 0x3f)
    }

    /// Whether every bit of `other` is set in `self`.
    #[verifier::allow_in_spec]
    pub fn contains(&self, other: CntAcr) -> bool
        returns
            self.0 & other.0 == other.0,
    {
        self.0 & other.0 == other.0
    }

    /// The bits set in either value.
    #[verifier::allow_in_spec]
    pub fn union(self, other: CntAcr) -> CntAcr
        returns
            CntAcr(self.0 | other.0),
    {
        CntAcr(self.0 | other.0)
    }

    /// The bits set in both values.
    #[verifier::allow_in_spec]
    pub fn intersection(self, other: CntAcr) -> CntAcr
        returns
            CntAcr(self.0 & other.0),
    {
        CntAcr(self.0 & other.0)
    }

    /// The bits of `self` that are not set in `other`.
    #[verifier::allow_in_spec]
    pub fn difference(self, other: CntAcr) -> CntAcr
        returns
            CntAcr(self.0 & !other.0),
    {
        CntAcr(self.0 & !other.0)
    }

    /// The named flags that are not set in `self`.
    #[verifier::allow_in_spec]
    pub fn complement(self) -> CntAcr
        returns
            CntAcr(!self.0 & 0x3f),
    {
        CntAcr(!self.0 & 0x3f)
    }

    /// Sets the bits of `other`.
    pub fn insert(&mut self, other: CntAcr)
        ensures
            *final(self) == old(self).union(other),
    {
        self.0 = self.0 | other.0;
    }

    /// Clears the bits of `other`.
    pub fn remove(&mut self, other: CntAcr)
        ensures
            *final(self) == old(self).difference(other),
    {
        self.0 = self.0 & !other.0;
    }

    /// Sets the bits of `other` if `value` is true, clears them if not.
    pub fn set(&mut self, other: CntAcr, value: bool)
        ensures
            *final(self) == if value {
                old(self).union(other)
            } else {
                old(self).difference(other)
            },
    {
        if value {
            self.insert(other);
        } else {
            self.remove(other);
        }
    }

    /// A named flag that was set is contained, one that was cleared is not.
    pub proof fn lemma_flag_set_clear(value: CntAcr, flag: CntAcr)
        requires
            CntAcr::is_flag(flag),
        ensures
            value.union(flag).contains(flag),
            !value.difference(flag).contains(flag),
    {
        lemma_or_contains(value.0, flag.0);
        lemma_and_not_excludes(value.0, flag.0);
    }

    /// Setting or clearing any bits leaves every other bit of the value,
    /// named or not, as it was.
    pub proof fn lemma_rest_kept(value: CntAcr, other: CntAcr)
        ensures
            value.union(other)@ & !other@ == value@ & !other@,
            value.difference(other)@ & !other@ == value@ & !other@,
    {
        lemma_outside_untouched(value.0, other.0);
    }

    /// No two named flags share a bit.
    pub proof fn lemma_flags_disjoint(a: CntAcr, b: CntAcr)
        requires
            CntAcr::is_flag(a),
            CntAcr::is_flag(b),
            a != b,
        ensures
            a@ & b@ == 0,
    {
        assert(0x20u32 & 0x10 == 0 && 0x20u32 & 0x8 == 0 && 0x20u32 & 0x4 == 0
            && 0x20u32 & 0x2 == 0 && 0x20u32 & 0x1 == 0 && 0x10u32 & 0x20 == 0
            && 0x10u32 & 0x8 == 0 && 0x10u32 & 0x4 == 0 && 0x10u32 & 0x2 == 0
            && 0x10u32 & 0x1 == 0 && 0x8u32 & 0x20 == 0 && 0x8u32 & 0x10 == 0
            && 0x8u32 & 0x4 == 0 && 0x8u32 & 0x2 == 0 && 0x8u32 & 0x1 == 0 && 0x4u32 & 0x20 == 0
            && 0x4u32 & 0x10 == 0 && 0x4u32 & 0x8 == 0 && 0x4u32 & 0x2 == 0 && 0x4u32 & 0x1 == 0
            && 0x2u32 & 0x20 == 0 && 0x2u32 & 0x10 == 0 && 0x2u32 & 0x8 == 0
            && 0x2u32 & 0x4 == 0 && 0x2u32 & 0x1 == 0 && 0x1u32 & 0x20 == 0
            && 0x1u32 & 0x10 == 0 && 0x1u32 & 0x8 == 0 && 0x1u32 & 0x4 == 0 && 0x1u32 & 0x2 == 0) by (bit_vector);
    }

    /// Setting or clearing one named flag leaves every other named flag as it
    /// was.
    pub proof fn lemma_flag_independent(value: CntAcr, flag: CntAcr, other: CntAcr)
        requires
            CntAcr::is_flag(flag),
            CntAcr::is_flag(other),
            flag != other,
        ensures
            value.union(flag).contains(other) == value.contains(other),
            value.difference(flag).contains(other) == value.contains(other),
    {
        CntAcr::lemma_flags_disjoint(flag, other);
        lemma_disjoint_untouched(value.0, flag.0, other.0);
    }
}

} // verus!
