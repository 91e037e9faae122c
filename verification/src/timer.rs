//! The comparator timer: the deadline arithmetic and the arm, cancel and
//! wait operations shared by the physical and the virtual timer.
//!
//! A timer is idle while its enable bit is clear. Armed, it counts towards
//! the compare value with the interrupt unmasked; armed for polling, with
//! the interrupt masked. The peripheral sets the status bit once the count
//! reaches the compare value, and a waiting caller polls for that bit.
//! Cancelling masks the interrupt and nothing more: the enable bit stays as
//! it is.

use crate::layout::TimerRegs;
use crate::registers::timer_control::TimerControl;
use vstd::prelude::*;

verus! {

/// Microseconds in a second.
pub const MICROS_PER_SECOND: u64 = 1_000_000;

/// Counter ticks in `micros` microseconds at `frequency` Hz, rounded
/// towards zero.
pub open spec fn ticks(frequency: u32, micros: u128) -> int {
    (frequency as int * micros as int) / 1_000_000
}

/// The compare value that lies `micros` microseconds after `compare` at
/// `frequency` Hz.
pub open spec fn deadline_after(compare: u64, frequency: u32, micros: u128) -> int {
    compare + ticks(frequency, micros)
}

/// Whether the new compare value fits the 64-bit compare register. Nothing
/// is asked of the duration or of the frequency by themselves.
pub open spec fn deadline_in_range(compare: u64, frequency: u32, micros: u128) -> bool {
    deadline_after(compare, frequency, micros) <= u64::MAX
}

/// The tick count is the quotient of frequency times duration by a million,
/// rounded towards zero: it is never negative, a million times it does not
/// exceed the product, and a million times the next number does. A duration
/// of zero, like a frequency of zero, gives no ticks, so the deadline is the
/// compare value itself.
pub proof fn lemma_ticks_round_down(compare: u64, frequency: u32, micros: u128)
    ensures
        0 <= ticks(frequency, micros),
        ticks(frequency, micros) * 1_000_000 <= (frequency as int) * (micros as int),
        (frequency as int) * (micros as int) < (ticks(frequency, micros) + 1) * 1_000_000,
        frequency == 0 || micros == 0 ==> ticks(frequency, micros) == 0,
        frequency == 0 || micros == 0 ==> deadline_after(compare, frequency, micros) == compare,
        frequency == 0 || micros == 0 ==> deadline_in_range(compare, frequency, micros),
{
    let product = frequency as int * micros as int;
    assert(0 <= product) by (nonlinear_arith)
        requires
            product == frequency as int * micros as int,
    ;
    assert(frequency == 0 || micros == 0 ==> product == 0) by (nonlinear_arith)
        requires
            product == frequency as int * micros as int,
    ;
    assert(product == 1_000_000 * (product / 1_000_000) + product % 1_000_000);
}

/// The tick count can be had from the whole seconds of the duration and
/// from what is left of it: each whole second is `frequency` ticks, and the
/// rest, less than a second, adds its own ticks rounded towards zero.
pub proof fn lemma_ticks_by_seconds(frequency: u32, micros: u128)
    ensures
        ticks(frequency, micros) == (frequency as int) * ((micros as int) / 1_000_000) + ((
        frequency as int) * ((micros as int) % 1_000_000)) / 1_000_000,
{
    let f = frequency as int;
    let m = micros as int;
    let seconds = m / 1_000_000;
    let rest = m % 1_000_000;
    let whole = f * seconds;
    let part = f * rest;
    assert(m == seconds * 1_000_000 + rest);
    assert(f * m == whole * 1_000_000 + part) by (nonlinear_arith)
        requires
            m == seconds * 1_000_000 + rest,
            whole == f * seconds,
            part == f * rest,
    ;
    assert(0 <= part) by (nonlinear_arith)
        requires
            part == f * rest,
            0 <= f,
            0 <= rest,
    ;
    assert((whole * 1_000_000 + part) / 1_000_000 == whole + part / 1_000_000);
}

/// The compare value that lies `micros` microseconds after `compare` at
/// `frequency` Hz, or `None` where that value does not fit the 64-bit
/// compare register. However long the duration, the value is exact: no
/// intermediate result is cut short.
pub fn deadline(compare: u64, frequency: u32, micros: u128) -> (value: Option<u64>)
    ensures
        deadline_in_range(compare, frequency, micros) ==> value == Some(
            deadline_after(compare, frequency, micros) as u64,
        ),
        !deadline_in_range(compare, frequency, micros) ==> value is None,
{
    proof {
        lemma_ticks_by_seconds(frequency, micros);
    }
    let seconds: u128 = micros / (MICROS_PER_SECOND as u128);
    let rest: u128 = micros % (MICROS_PER_SECOND as u128);
    if frequency == 0 {
        assert(frequency as int * seconds as int == 0 && frequency as int * rest as int == 0)
            by (nonlinear_arith)
            requires
                frequency == 0,
        ;
        return Some(compare);
    }
    if seconds > u64::MAX as u128 {
        assert(frequency as int * seconds as int > u64::MAX) by (nonlinear_arith)
            requires
                frequency >= 1,
                seconds > u64::MAX,
        ;
        assert(0 <= frequency as int * rest as int) by (nonlinear_arith);
        return None;
    }
    assert(frequency as int * seconds as int <= 0xffff_ffff * 0xffff_ffff_ffff_ffff)
        by (nonlinear_arith)
        requires
            frequency <= 0xffff_ffff,
            seconds <= 0xffff_ffff_ffff_ffff,
    ;
    assert(0 <= frequency as int * rest as int <= 0xffff_ffff * 999_999) by (nonlinear_arith)
        requires
            frequency <= 0xffff_ffff,
            rest <= 999_999,
    ;
    let whole: u128 = (frequency as u128) * seconds;
    let part: u128 = (frequency as u128) * rest / (MICROS_PER_SECOND as u128);
    let total: u128 = compare as u128 + whole + part;
    if total > u64::MAX as u128 {
        None
    } else {
        Some(total as u64)
    }
}

/// The control word that arms the timer with its interrupt unmasked.
#[verifier::allow_in_spec]
pub fn armed() -> TimerControl
    returns
        TimerControl::ENABLE(),
{
    TimerControl::ENABLE()
}

/// The control word that masks the interrupt of a timer whose control
/// register holds `control`: the same word with the mask bit set. The
/// enable bit, like every other bit, stays as it is.
#[verifier::allow_in_spec]
pub fn masked(control: TimerControl) -> TimerControl
    returns
        control.union(TimerControl::IMASK()),
{
    control.union(TimerControl::IMASK())
}

/// The control word that arms the timer for polling: enabled, with the
/// interrupt masked.
#[verifier::allow_in_spec]
pub fn polling() -> TimerControl
    returns
        TimerControl::ENABLE().union(TimerControl::IMASK()),
{
    TimerControl::ENABLE().union(TimerControl::IMASK())
}

/// Whether a control word that was read says that the timer condition is
/// met, which ends a wait.
#[verifier::allow_in_spec]
pub fn expired(control: TimerControl) -> bool
    returns
        control.contains(TimerControl::ISTATUS()),
{
    control.contains(TimerControl::ISTATUS())
}

/// Arming for an interrupt sets the enable bit and leaves the interrupt
/// unmasked; arming for polling sets both bits. Neither word reads as
/// expired: a wait ends only on a status bit that the peripheral has set.
pub proof fn lemma_arming_words()
    ensures
        armed().contains(TimerControl::ENABLE()) && !armed().contains(TimerControl::IMASK()),
        polling().contains(TimerControl::ENABLE()) && polling().contains(TimerControl::IMASK()),
        !expired(armed()),
        !expired(polling()),
{
    assert(0x1u32 & 0x1 == 0x1 && 0x1u32 & 0x2 != 0x2 && (0x1u32 | 0x2) & 0x1 == 0x1 && (0x1u32
        | 0x2) & 0x2 == 0x2 && 0x1u32 & 0x4 != 0x4 && (0x1u32 | 0x2) & 0x4 != 0x4)
        by (bit_vector);
}

/// Masking sets the mask bit and nothing else: the enable bit and the
/// status bit read as they did before, and so does every other bit of the
/// control word.
pub proof fn lemma_masked_keeps_rest(control: TimerControl)
    ensures
        masked(control).contains(TimerControl::IMASK()),
        masked(control).contains(TimerControl::ENABLE()) == control.contains(
            TimerControl::ENABLE(),
        ),
        expired(masked(control)) == expired(control),
        masked(control)@ & !TimerControl::IMASK()@ == control@ & !TimerControl::IMASK()@,
{
    TimerControl::lemma_flag_set_clear(control, TimerControl::IMASK());
    TimerControl::lemma_flag_independent(control, TimerControl::IMASK(), TimerControl::ENABLE());
    TimerControl::lemma_flag_independent(control, TimerControl::IMASK(), TimerControl::ISTATUS());
    TimerControl::lemma_rest_kept(control, TimerControl::IMASK());
}

/// Driver for one comparator timer, physical or virtual. It borrows the
/// registers of the timer from the frame that holds them and carries the
/// frequency that was sampled when it was made.
///
/// The view of a timer is what its registers hold now. Each operation that
/// writes a register also says that the timer goes on borrowing the same
/// registers: whatever the registers hold when the borrow ends is what the
/// lender finds.
pub struct Timer<'a> {
    /// The registers of the timer, borrowed for the life of the driver.
    pub regs: &'a mut TimerRegs,
    /// The counter frequency in Hz.
    pub frequency: u32,
}

impl View for Timer<'_> {
    type V = TimerRegs;

    /// The registers of the timer as they are now.
    open spec fn view(&self) -> TimerRegs {
        *self.regs
    }
}

impl<'a> Timer<'a> {
    /// Borrows the registers.
    pub fn new(regs: &'a mut TimerRegs, frequency: u32) -> (timer: Timer<'a>)
        ensures
            timer@ == *old(regs),
            *final(timer.regs) == *final(regs),
            timer.frequency == frequency,
    {
        Timer { regs, frequency }
    }

    /// Sets the timer up to raise its interrupt after the given number of
    /// microseconds, and returns at once.
    ///
    /// The caller must have prepared the system to take the interrupt: the
    /// vector table set, the interrupt controller configured. That lies
    /// outside the timer and is not part of the contract below.
    pub fn generate_interrupt_after(&mut self, micros: u128)
        requires
            deadline_in_range(old(self)@.cval, old(self).frequency, micros),
        ensures
            final(self)@ == (TimerRegs {
                cval: deadline_after(old(self)@.cval, old(self).frequency, micros) as u64,
                ctl: armed(),
                ..old(self)@
            }),
            final(self).frequency == old(self).frequency,
            *final(final(self).regs) == *final(old(self).regs),
    {
        self.set_deadline(micros);
        self.set_control(armed());
    }

    /// Masks the interrupt: reads the control register and writes it back
    /// with the mask bit set. The enable bit stays as it was, so a timer
    /// that was armed goes on counting with its interrupt suppressed, and a
    /// status bit that the peripheral has set is not cleared.
    pub fn cancel_interrupt(&mut self)
        ensures
            final(self)@ == (TimerRegs {
                ctl: old(self)@.ctl.union(TimerControl::IMASK()),
                ..old(self)@
            }),
            final(self).frequency == old(self).frequency,
            *final(final(self).regs) == *final(old(self).regs),
    {
        let control = self.control();
        self.set_control(masked(control));
    }

    /// Begins a blocking wait of the given number of microseconds: sets the
    /// deadline and arms the timer for polling. The wait is over once
    /// [`Timer::wait_over`] says so.
    pub fn start_wait(&mut self, micros: u128)
        requires
            deadline_in_range(old(self)@.cval, old(self).frequency, micros),
        ensures
            final(self)@ == (TimerRegs {
                cval: deadline_after(old(self)@.cval, old(self).frequency, micros) as u64,
                ctl: polling(),
                ..old(self)@
            }),
            final(self).frequency == old(self).frequency,
            *final(final(self).regs) == *final(old(self).regs),
    {
        self.set_deadline(micros);
        self.set_control(polling());
    }

    /// Polls the control register once: whether the wait is over.
    pub fn wait_over(&self) -> (over: bool)
        ensures
            over == expired(self@.ctl),
    {
        expired(self.control())
    }

    /// Moves the compare value forward by the given number of microseconds.
    /// The new deadline is counted from the compare value that the register
    /// holds, not from the current count.
    pub fn set_deadline(&mut self, micros: u128)
        requires
            deadline_in_range(old(self)@.cval, old(self).frequency, micros),
        ensures
            final(self)@ == (TimerRegs {
                cval: deadline_after(old(self)@.cval, old(self).frequency, micros) as u64,
                ..old(self)@
            }),
            final(self).frequency == old(self).frequency,
            *final(final(self).regs) == *final(old(self).regs),
    {
        let value: u64 = self.regs.cval;
        let value: u64 = deadline(value, self.frequency, micros).unwrap();
        self.regs.cval = value;
    }

    /// Reads the control register.
    pub fn control(&self) -> (control: TimerControl)
        ensures
            control == self@.ctl,
    {
        self.regs.ctl
    }

    /// Writes the control register.
    pub fn set_control(&mut self, control: TimerControl)
        ensures
            final(self)@ == (TimerRegs { ctl: control, ..old(self)@ }),
            final(self).frequency == old(self).frequency,
            *final(final(self).regs) == *final(old(self).regs),
    {
        self.regs.ctl = control;
    }
}

} // verus!
