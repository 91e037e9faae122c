//! CNTSR, the Counter Status Register.

use crate::bits::{lemma_and_not_excludes, lemma_or_contains, lemma_outside_untouched};
use vstd::prelude::*;

verus! {

/// Counter Status Register.
///
/// Read-only for a driver. One bit is a named flag, ten bits hold the
/// acknowledged frequency-mode index.
#[derive(Clone, Copy, Debug, PartialEq, Eq, Structural)]
pub struct CntSr(pub u32);

impl View for CntSr {
    type V = u32;

    open spec fn view(&self) -> u32 {
        self.0
    }
}

impl CntSr {
    /// Mask of the frequency-mode acknowledge field, before shifting.
    pub const FCACK_MASK: u32 = 0x3ff;

    /// Bit offset of the frequency-mode acknowledge field.
    pub const FCACK_SHIFT: u32 = 8;

    /// The bits of the register word that the acknowledge field occupies.
    pub const FCACK_FIELD: u32 = 0x3ff00;

    /// Halt-on-debug.
    #[allow(non_snake_case)]
    #[verifier::allow_in_spec]
    pub fn HDBG() -> CntSr
        returns
            CntSr(0x2),
    {
        CntSr(0x2)
    }

    /// Holds of the named flags and of nothing else.
    pub open spec fn is_flag(flag: CntSr) -> bool {
        flag == CntSr::HDBG()
    }

    /// The value with no bit set.
    #[verifier::allow_in_spec]
    pub fn empty() -> CntSr
        returns
            CntSr(0),
    {
        CntSr(0)
    }

    /// The value with every named flag set.
    #[verifier::allow_in_spec]
    pub fn all() -> CntSr
        returns
            CntSr(0x2),
    {
        CntSr(0x2)
    }

    /// The raw register word.
    #[verifier::allow_in_spec]
    pub fn bits(&self) -> u32
        returns
            self.0,
    {
        self.0
    }

    /// The value with exactly the given raw word, unnamed bits included.
    #[verifier::allow_in_spec]
    pub fn from_bits_retain(bits: u32) -> CntSr
        returns
            CntSr(bits),
    {
        CntSr(bits)
    }

    /// The value made of the named flags of the given raw word.
    #[verifier::allow_in_spec]
    pub fn from_bits_truncate(bits: u32) -> CntSr
        returns
            CntSr(bits & 0x2),
    {
        CntSr(bits & 0x2)
    }

    /// Whether every bit of `other` is set in `self`.
    #[verifier::allow_in_spec]
    pub fn contains(&self, other: CntSr) -> bool
        returns
            self.0 & other.0 == other.0,
    {
        self.0 & other.0 == other.0
    }

    /// The bits set in either value.
    #[verifier::allow_in_spec]
    pub fn union(self, other: CntSr) -> CntSr
        returns
            CntSr(self.0 | other.0),
    {
        CntSr(self.0 | other.0)
    }

    /// The bits set in both values.
    #[verifier::allow_in_spec]
    pub fn intersection(self, other: CntSr) -> CntSr
        returns
            CntSr(self.0 & other.0),
    {
        CntSr(self.0 & other.0)
    }

    /// The bits of `self` that are not set in `other`.
    #[verifier::allow_in_spec]
    pub fn difference(self, other: CntSr) -> CntSr
        returns
            CntSr(self.0 & !other.0),
    {
        CntSr(self.0 & !other.0)
    }

    /// The named flags that are not set in `self`.
    #[verifier::allow_in_spec]
    pub fn complement(self) -> CntSr
        returns
            CntSr(!self.0 & 0x2),
    {
        CntSr(!self.0 & 0x2)
    }

    /// Sets the bits of `other`.
    pub fn insert(&mut self, other: CntSr)
        ensures
            *final(self) == old(self).union(other),
    {
        self.0 = self.0 | other.0;
    }

    /// Clears the bits of `other`.
    pub fn remove(&mut self, other: CntSr)
        ensures
            *final(self) == old(self).difference(other),
    {
        self.0 = self.0 & !other.0;
    }

    /// Sets the bits of `other` if `value` is true, clears them if not.
    pub fn set(&mut self, other: CntSr, value: bool)
        ensures
            *final(self) == if value {
                old(self).union(other)
            } else {
                old(self).difference(other)
            },
    {
        if value {
            self.insert(other);
        } else {
            self.remove(other);
        }
    }

    /// The acknowledged frequency-mode index, the FCACK field: bits 8 to 17
    /// of the register word.
    #[verifier::allow_in_spec]
    pub fn fcack(&self) -> usize
        returns
            ((self.0 >> 8) & 0x3ff) as usize,
    {
        ((self.0 >> CntSr::FCACK_SHIFT) & CntSr::FCACK_MASK) as usize
    }

    /// The FCACK field is an index below 1024, and it is the register word
    /// divided by 256, modulo 1024.
    pub proof fn lemma_fcack_range(value: CntSr)
        ensures
            value.fcack() < 1024,
            value.fcack() == (value@ / 256) % 1024,
    {
        let word = value.0;
        assert((word >> 8) & 0x3ff < 1024 && (word >> 8) & 0x3ff == (word / 256) % 1024)
            by (bit_vector);
    }

    /// A named flag that was set is contained, one that was cleared is not.
    pub proof fn lemma_flag_set_clear(value: CntSr, flag: CntSr)
        requires
            CntSr::is_flag(flag),
        ensures
            value.union(flag).contains(flag),
            !value.difference(flag).contains(flag),
    {
        lemma_or_contains(value.0, flag.0);
        lemma_and_not_excludes(value.0, flag.0);
    }

    /// Setting or clearing any bits leaves every other bit of the value,
    /// named or not, as it was.
    pub proof fn lemma_rest_kept(value: CntSr, other: CntSr)
        ensures
            value.union(other)@ & !other@ == value@ & !other@,
            value.difference(other)@ & !other@ == value@ & !other@,
    {
        lemma_outside_untouched(value.0, other.0);
    }

    /// The named flag does not reach into the FCACK field.
    pub proof fn lemma_flags_disjoint(a: CntSr)
        requires
            CntSr::is_flag(a),
        ensures
            a@ & CntSr::FCACK_FIELD == 0,
    {
        assert(0x2u32 & 0x3ff00 == 0) by (bit_vector);
    }
}

} // verus!
