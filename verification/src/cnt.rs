//! Drivers for the timer frames: CNTBaseN and its second view, CNTEL0BaseN.

use crate::layout::{CntBase, CntEl0Base};
use crate::registers::cntel0acr::CntEl0Acr;
use crate::timer::Timer;
use vstd::prelude::*;

verus! {

/// Driver for a CNTBaseN timer frame. It owns the frame for as long as it
/// lives.
pub struct GenericTimerCnt {
    regs: CntBase,
}

impl View for GenericTimerCnt {
    type V = CntBase;

    /// The frame as the driver holds it.
    closed spec fn view(&self) -> CntBase {
        self.regs
    }
}

impl GenericTimerCnt {
    /// Takes over the frame.
    pub fn new(regs: CntBase) -> (driver: GenericTimerCnt)
        ensures
            driver@ == regs,
    {
        GenericTimerCnt { regs }
    }

    /// The frame as it is now.
    pub fn regs(&self) -> (regs: &CntBase)
        ensures
            *regs == self@,
    {
        &self.regs
    }

    /// Gives the frame back.
    pub fn into_regs(self) -> (regs: CntBase)
        ensures
            regs == self@,
    {
        self.regs
    }

    /// The physical count.
    pub fn physical_count(&self) -> (count: u64)
        ensures
            count == self@.cntpct,
    {
        self.regs.cntpct
    }

    /// The virtual count.
    pub fn virtual_count(&self) -> (count: u64)
        ensures
            count == self@.cntvct,
    {
        self.regs.cntvct
    }

    /// The frequency in Hz.
    pub fn frequency(&self) -> (frequency: u32)
        ensures
            frequency == self@.cntfrq,
    {
        self.regs.cntfrq
    }

    /// The access rights of the second view.
    pub fn el0_access(&self) -> (value: CntEl0Acr)
        ensures
            value == self@.cntel0acr,
    {
        self.regs.cntel0acr
    }

    /// Sets the access rights of the second view.
    pub fn set_el0_access(&mut self, value: CntEl0Acr)
        ensures
            final(self)@ == (CntBase { cntel0acr: value, ..old(self)@ }),
    {
        self.regs.cntel0acr = value;
    }

    /// The virtual offset of the frame.
    pub fn virtual_offset(&self) -> (offset: u64)
        ensures
            offset == self@.cntvoff,
    {
        self.regs.cntvoff
    }

    /// The physical timer of the frame. It carries the frequency that the
    /// frame reports now, and borrows the registers of the physical timer
    /// until it is dropped: what it leaves in them is what the frame then
    /// holds, and nothing else of the frame changes.
    pub fn physical_timer(&mut self) -> (timer: Timer<'_>)
        ensures
            timer@ == old(self)@.cntp,
            timer.frequency == old(self)@.cntfrq,
            final(self)@ == (CntBase { cntp: *final(timer.regs), ..old(self)@ }),
    {
        let frequency = self.frequency();
        Timer::new(&mut self.regs.cntp, frequency)
    }

    /// The virtual timer of the frame. It carries the frequency that the
    /// frame reports now, and borrows the registers of the virtual timer
    /// until it is dropped: what it leaves in them is what the frame then
    /// holds, and nothing else of the frame changes.
    pub fn virtual_timer(&mut self) -> (timer: Timer<'_>)
        ensures
            timer@ == old(self)@.cntv,
            timer.frequency == old(self)@.cntfrq,
            final(self)@ == (CntBase { cntv: *final(timer.regs), ..old(self)@ }),
    {
        let frequency = self.frequency();
        Timer::new(&mut self.regs.cntv, frequency)
    }
}

/// Driver for a CNTEL0BaseN frame. It owns the frame for as long as it
/// lives.
pub struct GenericTimerCntEl0 {
    regs: CntEl0Base,
}

impl View for GenericTimerCntEl0 {
    type V = CntEl0Base;

    /// The frame as the driver holds it.
    closed spec fn view(&self) -> CntEl0Base {
        self.regs
    }
}

impl GenericTimerCntEl0 {
    /// Takes over the frame.
    pub fn new(regs: CntEl0Base) -> (driver: GenericTimerCntEl0)
        ensures
            driver@ == regs,
    {
        GenericTimerCntEl0 { regs }
    }

    /// The frame as it is now.
    pub fn regs(&self) -> (regs: &CntEl0Base)
        ensures
            *regs == self@,
    {
        &self.regs
    }

    /// Gives the frame back.
    pub fn into_regs(self) -> (regs: CntEl0Base)
        ensures
            regs == self@,
    {
        self.regs
    }

    /// The physical count.
    pub fn physical_count(&self) -> (count: u64)
        ensures
            count == self@.cntpct,
    {
        self.regs.cntpct
    }

    /// The virtual count.
    pub fn virtual_count(&self) -> (count: u64)
        ensures
            count == self@.cntvct,
    {
        self.regs.cntvct
    }

    /// The frequency in Hz.
    pub fn frequency(&self) -> (frequency: u32)
        ensures
            frequency == self@.cntfrq,
    {
        self.regs.cntfrq
    }

    /// The physical timer of the frame. It carries the frequency that the
    /// frame reports now, and borrows the registers of the physical timer
    /// until it is dropped: what it leaves in them is what the frame then
    /// holds, and nothing else of the frame changes.
    pub fn physical_timer(&mut self) -> (timer: Timer<'_>)
        ensures
            timer@ == old(self)@.cntp,
            timer.frequency == old(self)@.cntfrq,
            final(self)@ == (CntEl0Base { cntp: *final(timer.regs), ..old(self)@ }),
    {
        let frequency = self.frequency();
        Timer::new(&mut self.regs.cntp, frequency)
    }

    /// The virtual timer of the frame. It carries the frequency that the
    /// frame reports now, and borrows the registers of the virtual timer
    /// until it is dropped: what it leaves in them is what the frame then
    /// holds, and nothing else of the frame changes.
    pub fn virtual_timer(&mut self) -> (timer: Timer<'_>)
        ensures
            timer@ == old(self)@.cntv,
            timer.frequency == old(self)@.cntfrq,
            final(self)@ == (CntEl0Base { cntv: *final(timer.regs), ..old(self)@ }),
    {
        let frequency = self.frequency();
        Timer::new(&mut self.regs.cntv, frequency)
    }
}

} // verus!
