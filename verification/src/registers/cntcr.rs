//! CNTCR, the Counter Control Register.

use crate::bits::{
    lemma_and_not_excludes, lemma_disjoint_untouched, lemma_or_contains,
    lemma_outside_untouched,
};
use vstd::prelude::*;

verus! {

/// Counter Control Register.
///
/// The value is the raw register word. Three bits are named flags, ten bits
/// hold the requested frequency-mode index; every other bit is carried
/// along unchanged by all operations.
#[derive(Clone, Copy, Debug, PartialEq, Eq, Structural)]
pub struct CntCr(pub u32);

impl View for CntCr {
    type V = u32;

    open spec fn view(&self) -> u32 {
        self.0
    }
}

impl CntCr {
    /// Mask of the frequency-mode request field, before shifting.
    pub const FCREQ_MASK: u32 = 0x3ff;

    /// Bit offset of the frequency-mode request field.
    pub const FCREQ_SHIFT: u32 = 8;

    /// The bits of the register word that the request field occupies.
    pub const FCREQ_FIELD: u32 = 0x3ff00;

    /// Scaling is enabled. Only meaningful where counter scaling is
    /// implemented.
    #[allow(non_snake_case)]
    #[verifier::allow_in_spec]
    pub fn SCEN() -> CntCr
        returns
            CntCr(0x4),
    {
        CntCr(0x4)
    }

    /// Halt-on-debug.
    #[allow(non_snake_case)]
    #[verifier::allow_in_spec]
    pub fn HDBG() -> CntCr
        returns
            CntCr(0x2),
    {
        CntCr(0x2)
    }

    /// System counter enabled.
    #[allow(non_snake_case)]
    #[verifier::allow_in_spec]
    pub fn EN() -> CntCr
        returns
            CntCr(0x1),
    {
        CntCr(0x1)
    }

    /// Holds of the named flags and of nothing else.
    pub open spec fn is_flag(flag: CntCr) -> bool {
        flag == CntCr::SCEN() || flag == CntCr::HDBG() || flag == CntCr::EN()
    }

    /// The value with no bit set.
    #[verifier::allow_in_spec]
    pub fn empty() -> CntCr
        returns
            CntCr(0),
    {
        CntCr(0)
    }

    /// The value with every named flag set.
    #[verifier::allow_in_spec]
    pub fn all() -> CntCr
        returns
            CntCr(0x7),
    {
        CntCr(0x7)
    }

    /// The raw register word.
    #[verifier::allow_in_spec]
    pub fn bits(&self) -> u32
        returns
            self.0,
    {
        self.0
    }

    /// The value with exactly the given raw word, unnamed bits included.
    #[verifier::allow_in_spec]
    pub fn from_bits_retain(bits: u32) -> CntCr
        returns
            CntCr(bits),
    {
        CntCr(bits)
    }

    /// The value made of the named flags of the given raw word.
    #[verifier::allow_in_spec]
    pub fn from_bits_truncate(bits: u32) -> CntCr
        returns
            CntCr(bits & 0x7),
    {
        CntCr(bits & 0x7)
    }

    /// Whether every bit of `other` is set in `self`.
    #[verifier::allow_in_spec]
    pub fn contains(&self, other: CntCr) -> bool
        returns
            self.0 & other.0 == other.0,
    {
        self.0 & other.0 == other.0
    }

    /// The bits set in either value.
    #[verifier::allow_in_spec]
    pub fn union(self, other: CntCr) -> CntCr
        returns
            CntCr(self.0 | other.0),
    {
        CntCr(self.0 | other.0)
    }

    /// The bits set in both values.
    #[verifier::allow_in_spec]
    pub fn intersection(self, other: CntCr) -> CntCr
        returns
            CntCr(self.0 & other.0),
    {
        CntCr(self.0 & other.0)
    }

    /// The bits of `self` that are not set in `other`.
    #[verifier::allow_in_spec]
    pub fn difference(self, other: CntCr) -> CntCr
        returns
            CntCr(self.0 & !other.0),
    {
        CntCr(self.0 & !other.0)
    }

    /// The named flags that are not set in `self`.
    #[verifier::allow_in_spec]
    pub fn complement(self) -> CntCr
        returns
            CntCr(!self.0 & 0x7),
    {
        CntCr(!self.0 & 0x7)
    }

    /// Sets the bits of `other`.
    pub fn insert(&mut self, other: CntCr)
        ensures
            *final(self) == old(self).union(other),
    {
        self.0 = self.0 | other.0;
    }

    /// Clears the bits of `other`.
    pub fn remove(&mut self, other: CntCr)
        ensures
            *final(self) == old(self).difference(other),
    {
        self.0 = self.0 & !other.0;
    }

    /// Sets the bits of `other` if `value` is true, clears them if not.
    pub fn set(&mut self, other: CntCr, value: bool)
        ensures
            *final(self) == if value {
                old(self).union(other)
            } else {
                old(self).difference(other)
            },
    {
        if value {
            self.insert(other);
        } else {
            self.remove(other);
        }
    }

    /// The requested frequency-mode index, the FCREQ field.
    #[verifier::allow_in_spec]
    pub fn fcreq(&self) -> usize
        returns
            ((self.0 >> 8) & 0x3ff) as usize,
    {
        ((self.0 >> 8) & 0x3ff) as usize
    }

    /// Writes the FCREQ field. The index is taken modulo 1024; bits outside
    /// the field keep their value.
    pub fn set_fcreq(&mut self, index: usize)
        ensures
            final(self).fcreq() == index % 1024,
            final(self)@ & !CntCr::FCREQ_FIELD == old(self)@ & !CntCr::FCREQ_FIELD,
    {
        let word: u32 = self.0;
        let low: u32 = (#[verifier::truncate] (index as u32)) & CntCr::FCREQ_MASK;
        let value: u32 = (word & !(CntCr::FCREQ_MASK << CntCr::FCREQ_SHIFT)) | (low
            << CntCr::FCREQ_SHIFT);
        proof {
            assert(low == index % 1024) by (bit_vector)
                requires
                    low == (index as u32) & 0x3ff,
            ;
            assert(((value >> 8) & 0x3ff) == low && value & !0x3ff00u32 == word & !0x3ff00u32)
                by (bit_vector)
                requires
                    low <= 0x3ff,
                    value == (word & !(0x3ffu32 << 8u32)) | (low << 8u32),
            ;
        }
        self.0 = value;
    }

    /// A named flag that was set is contained, one that was cleared is not.
    pub proof fn lemma_flag_set_clear(value: CntCr, flag: CntCr)
        requires
            CntCr::is_flag(flag),
        ensures
            value.union(flag).contains(flag),
            !value.difference(flag).contains(flag),
    {
        lemma_or_contains(value.0, flag.0);
        lemma_and_not_excludes(value.0, flag.0);
    }

    /// Setting or clearing any bits leaves every other bit of the value,
    /// named or not, as it was.
    pub proof fn lemma_rest_kept(value: CntCr, other: CntCr)
        ensures
            value.union(other)@ & !other@ == value@ & !other@,
            value.difference(other)@ & !other@ == value@ & !other@,
    {
        lemma_outside_untouched(value.0, other.0);
    }

    /// No two named flags share a bit, and none reaches into the FCREQ field.
    pub proof fn lemma_flags_disjoint(a: CntCr, b: CntCr)
        requires
            CntCr::is_flag(a),
            CntCr::is_flag(b),
            a != b,
        ensures
            a@ & b@ == 0,
            a@ & CntCr::FCREQ_FIELD == 0,
    {
        assert(0x4u32 & 0x2 == 0 && 0x4u32 & 0x1 == 0 && 0x2u32 & 0x4 == 0 && 0x2u32 & 0x1 == 0
            && 0x1u32 & 0x4 == 0 && 0x1u32 & 0x2 == 0 && 0x4u32 & 0x3ff00 == 0
            && 0x2u32 & 0x3ff00 == 0 && 0x1u32 & 0x3ff00 == 0) by (bit_vector);
    }

    /// Setting or clearing one named flag leaves every other named flag and
    /// the FCREQ field as they were.
    pub proof fn lemma_flag_independent(value: CntCr, flag: CntCr, other: CntCr)
        requires
            CntCr::is_flag(flag),
            CntCr::is_flag(other),
            flag != other,
        ensures
            value.union(flag).contains(other) == value.contains(other),
            value.difference(flag).contains(other) == value.contains(other),
            value.union(flag).fcreq() == value.fcreq(),
            value.difference(flag).fcreq() == value.fcreq(),
    {
        CntCr::lemma_flags_disjoint(flag, other);
        lemma_disjoint_untouched(value.0, flag.0, other.0);
        let v = value.0;
        let f = flag.0;
        assert(((v | f) >> 8) & 0x3ff == (v >> 8) & 0x3ff && ((v & !f) >> 8) & 0x3ff == (v >> 8)
            & 0x3ff) by (bit_vector)
            requires
                f == 0x1 || f == 0x2 || f == 0x4,
        ;
    }
}

} // verus!
