//! CNTP_CTL and CNTV_CTL, the control register of a comparator timer.

use crate::bits::{
    lemma_and_not_excludes, lemma_disjoint_untouched, lemma_or_contains,
    lemma_outside_untouched,
};
use vstd::prelude::*;

verus! {

/// Control register shared by the physical and the virtual timer.
#[derive(Clone, Copy, Debug, PartialEq, Eq, Structural)]
pub struct TimerControl(pub u32);

impl View for TimerControl {
    type V = u32;

    open spec fn view(&self) -> u32 {
        self.0
    }
}

impl TimerControl {
    /// The timer condition is met.
    #[allow(non_snake_case)]
    #[verifier::allow_in_spec]
    pub fn ISTATUS() -> TimerControl
        returns
            TimerControl(0x4),
    {
        TimerControl(0x4)
    }

    /// The timer interrupt is masked.
    #[allow(non_snake_case)]
    #[verifier::allow_in_spec]
    pub fn IMASK() -> TimerControl
        returns
            TimerControl(0x2),
    {
        TimerControl(0x2)
    }

    /// The timer is enabled.
    #[allow(non_snake_case)]
    #[verifier::allow_in_spec]
    pub fn ENABLE() -> TimerControl
        returns
            TimerControl(0x1),
    {
        TimerControl(0x1)
    }

    /// Holds of the named flags and of nothing else.
    pub open spec fn is_flag(flag: TimerControl) -> bool {
        flag == TimerControl::ISTATUS() || flag == TimerControl::IMASK() || flag ==
            TimerControl::ENABLE()
    }

    /// The value with no bit set.
    #[verifier::allow_in_spec]
    pub fn empty() -> TimerControl
        returns
            TimerControl(0),
    {
        TimerControl(0)
    }

    /// The value with every named flag set.
    #[verifier::allow_in_spec]
    pub fn all() -> TimerControl
        returns
            TimerControl(0x7),
    {
        TimerControl(0x7)
    }

    /// The raw register word.
    #[verifier::allow_in_spec]
    pub fn bits(&self) -> u32
        returns
            self.0,
    {
        self.0
    }

    /// The value with exactly the given raw word, unnamed bits included.
    #[verifier::allow_in_spec]
    pub fn from_bits_retain(bits: u32) -> TimerControl
        returns
            TimerControl(bits),
    {
        TimerControl(bits)
    }

    /// The value made of the named flags of the given raw word.
    #[verifier::allow_in_spec]
    pub fn from_bits_truncate(bits: u32) -> TimerControl
        returns
            TimerControl(bits & 0x7),
    {
        TimerControl(bits & 0x7)
    }

    /// Whether every bit of `other` is set in `self`.
    #[verifier::allow_in_spec]
    pub fn contains(&self, other: TimerControl) -> bool
        returns
            self.0 & other.0 == other.0,
    {
        self.0 & other.0 == other.0
    }

    /// The bits set in either value.
    #[verifier::allow_in_spec]
    pub fn union(self, other: TimerControl) -> TimerControl
        returns
            TimerControl(self.0 | other.0),
    {
        TimerControl(self.0 | other.0)
    }

    /// The bits set in both values.
    #[verifier::allow_in_spec]
    pub fn intersection(self, other: TimerControl) -> TimerControl
        returns
            TimerControl(self.0 & other.0),
    {
        TimerControl(self.0 & other.0)
    }

    /// The bits of `self` that are not set in `other`.
    #[verifier::allow_in_spec]
    pub fn difference(self, other: TimerControl) -> TimerControl
        returns
            TimerControl(self.0 & !other.0),
    {
        TimerControl(self.0 & !other.0)
    }

    /// The named flags that are not set in `self`.
    #[verifier::allow_in_spec]
    pub fn complement(self) -> TimerControl
        returns
            TimerControl(!self.0 & 0x7),
    {
        TimerControl(!self.0 & 0x7)
    }

    /// Sets the bits of `other`.
    pub fn insert(&mut self, other: TimerControl)
        ensures
            *final(self) == old(self).union(other),
    {
        self.0 = self.0 | other.0;
    }

    /// Clears the bits of `other`.
    pub fn remove(&mut self, other: TimerControl)
        ensures
            *final(self) == old(self).difference(other),
    {
        self.0 = self.0 & !other.0;
    }

    /// Sets the bits of `other` if `value` is true, clears them if not.
    pub fn set(&mut self, other: TimerControl, value: bool)
        ensures
            *final(self) == if value {
                old(self).union(other)
            } else {
                old(self).difference(other)
            },
    {
        if value {
            self.insert(other);
        } else {
            self.remove(other);
        }
    }

    /// A named flag that was set is contained, one that was cleared is not.
    pub proof fn lemma_flag_set_clear(value: TimerControl, flag: TimerControl)
        requires
            TimerControl::is_flag(flag),
        ensures
            value.union(flag).contains(flag),
            !value.difference(flag).contains(flag),
    {
        lemma_or_contains(value.0, flag.0);
        lemma_and_not_excludes(value.0, flag.0);
    }

    /// Setting or clearing any bits leaves every other bit of the value,
    /// named or not, as it was.
    pub proof fn lemma_rest_kept(value: TimerControl, other: TimerControl)
        ensures
            value.union(other)@ & !other@ == value@ & !other@,
            value.difference(other)@ & !other@ == value@ & !other@,
    {
        lemma_outside_untouched(value.0, other.0);
    }

    /// No two named flags share a bit.
    pub proof fn lemma_flags_disjoint(a: TimerControl, b: TimerControl)
        requires
            TimerControl::is_flag(a),
            TimerControl::is_flag(b),
            a != b,
        ensures
            a@ & b@ == 0,
    {
        assert(0x4u32 & 0x2 == 0 && 0x4u32 & 0x1 == 0 && 0x2u32 & 0x4 == 0 && 0x2u32 & 0x1 == 0
            && 0x1u32 & 0x4 == 0 && 0x1u32 & 0x2 == 0) by (bit_vector);
    }

    /// Setting or clearing one named flag leaves every other named flag as it
    /// was.
    pub proof fn lemma_flag_independent(value: TimerControl, flag: TimerControl, other: TimerControl)
        requires
            TimerControl::is_flag(flag),
            TimerControl::is_flag(other),
            flag != other,
        ensures
            value.union(flag).contains(other) == value.contains(other),
            value.difference(flag).contains(other) == value.contains(other),
    {
        TimerControl::lemma_flags_disjoint(flag, other);
        lemma_disjoint_untouched(value.0, flag.0, other.0);
    }
}

} // verus!
