//! Driver for the CNTControlBase frame.

use crate::layout::{CntControlBase, FREQUENCY_MODES};
use crate::registers::cntcr::CntCr;
use vstd::prelude::*;

verus! {

/// What a slot of the frequency modes table stands for: a slot that holds 0
/// is not implemented, any other value is the frequency of that mode in Hz.
#[verifier::allow_in_spec]
pub fn frequency_of_slot(slot: u32) -> Option<u32>
    returns
        if slot != 0 {
            Some(slot)
        } else {
            None
        },
{
    if slot != 0 {
        Some(slot)
    } else {
        None
    }
}

impl CntControlBase {
    /// The frame after the counter was enabled or disabled.
    pub open spec fn with_enable(self, enable: bool) -> CntControlBase {
        CntControlBase {
            cntcr: if enable {
                self.cntcr.union(CntCr::EN())
            } else {
                self.cntcr.difference(CntCr::EN())
            },
            ..self
        }
    }

    /// The frame after scaling was enabled with the given scale.
    pub open spec fn with_scaling(self, scale: u32) -> CntControlBase {
        CntControlBase { cntscr: scale, cntcr: self.cntcr.union(CntCr::SCEN()), ..self }
    }

    /// The frame after scaling was disabled.
    pub open spec fn without_scaling(self) -> CntControlBase {
        CntControlBase { cntscr: 0, cntcr: self.cntcr.difference(CntCr::SCEN()), ..self }
    }
}

/// Driver for the CNTControlBase frame. It owns the frame for as long as it
/// lives, so nothing else can reach the registers meanwhile.
pub struct GenericTimerControl {
    regs: CntControlBase,
}

impl View for GenericTimerControl {
    type V = CntControlBase;

    /// The frame as the driver holds it.
    closed spec fn view(&self) -> CntControlBase {
        self.regs
    }
}

impl GenericTimerControl {
    /// Takes over the frame.
    pub fn new(regs: CntControlBase) -> (driver: GenericTimerControl)
        ensures
            driver@ == regs,
    {
        GenericTimerControl { regs }
    }

    /// The frame as it is now.
    pub fn regs(&self) -> (regs: &CntControlBase)
        ensures
            *regs == self@,
    {
        &self.regs
    }

    /// Gives the frame back.
    pub fn into_regs(self) -> (regs: CntControlBase)
        ensures
            regs == self@,
    {
        self.regs
    }

    /// Enables or disables the counter. Every other bit of the control
    /// register, and every other register, keeps its value.
    pub fn set_enable(&mut self, enable: bool)
        ensures
            final(self)@ == old(self)@.with_enable(enable),
    {
        let mut cntcr = self.regs.cntcr;
        cntcr.set(CntCr::EN(), enable);
        self.regs.cntcr = cntcr;
    }

    /// Selects the entry of the frequency modes table to switch to. The
    /// index is taken modulo 1024.
    pub fn request_frequency(&mut self, index: usize)
        ensures
            final(self)@ == (CntControlBase { cntcr: final(self)@.cntcr, ..old(self)@ }),
            final(self)@.cntcr.fcreq() == index % 1024,
            final(self)@.cntcr@ & !CntCr::FCREQ_FIELD == old(self)@.cntcr@ & !CntCr::FCREQ_FIELD,
    {
        let mut cntcr = self.regs.cntcr;
        cntcr.set_fcreq(index);
        self.regs.cntcr = cntcr;
    }

    /// The index of the frequency mode that the counter acknowledged.
    pub fn frequency_index(&self) -> (index: usize)
        ensures
            index == self@.cntsr.fcack(),
    {
        self.regs.cntsr.fcack()
    }

    /// The count value.
    pub fn count(&self) -> (count: u64)
        ensures
            count == self@.cntcv,
    {
        self.regs.cntcv
    }

    /// Sets the count value.
    pub fn set_count(&mut self, count: u64)
        ensures
            final(self)@ == (CntControlBase { cntcv: count, ..old(self)@ }),
    {
        self.regs.cntcv = count;
    }

    /// Whether the counter implements scaling.
    pub fn scaling_implemented(&self) -> (implemented: bool)
        ensures
            implemented == self@.cntid.scaling_implemented(),
    {
        self.regs.cntid.scaling_implemented()
    }

    /// The scale value.
    pub fn scale(&self) -> (scale: u32)
        ensures
            scale == self@.cntscr,
    {
        self.regs.cntscr
    }

    /// Writes the scale, then sets the scaling-enabled flag.
    pub fn enable_scaling(&mut self, scale: u32)
        ensures
            final(self)@ == old(self)@.with_scaling(scale),
    {
        self.regs.cntscr = scale;
        let cntcr = self.regs.cntcr;
        self.regs.cntcr = cntcr.union(CntCr::SCEN());
    }

    /// Clears the scaling-enabled flag, then writes 0 to the scale.
    pub fn disable_scaling(&mut self)
        ensures
            final(self)@ == old(self)@.without_scaling(),
    {
        let cntcr = self.regs.cntcr;
        self.regs.cntcr = cntcr.difference(CntCr::SCEN());
        self.regs.cntscr = 0;
    }

    /// The base frequency of the system counter in Hz: slot 0 of the
    /// frequency modes table.
    pub fn base_frequency(&self) -> (frequency: u32)
        ensures
            frequency == self@.cntfid@[0],
    {
        self.regs.cntfid[0]
    }

    /// The frequency of the given frequency mode in Hz, or `None` if the
    /// slot holds 0, which says that the mode is not implemented.
    pub fn frequency_mode(&self, index: usize) -> (frequency: Option<u32>)
        requires
            index < FREQUENCY_MODES,
        ensures
            frequency == frequency_of_slot(self@.cntfid@[index as int]),
            frequency is None <==> self@.cntfid@[index as int] == 0,
    {
        let frequency = self.regs.cntfid[index];
        frequency_of_slot(frequency)
    }

    /// Writes the slot of the given frequency mode.
    pub fn set_frequency_mode(&mut self, index: usize, frequency: u32)
        requires
            index < FREQUENCY_MODES,
        ensures
            final(self)@ == (CntControlBase { cntfid: final(self)@.cntfid, ..old(self)@ }),
            final(self)@.cntfid@ == old(self)@.cntfid@.update(index as int, frequency),
    {
        self.regs.cntfid[index] = frequency;
    }

    /// After scaling was enabled with a scale, the scale register reads
    /// that scale and the scaling-enabled flag is set; after scaling was
    /// disabled, the scale register reads 0 and the flag is clear.
    pub proof fn lemma_scaling_round_trip(frame: CntControlBase, scale: u32)
        ensures
            frame.with_scaling(scale).cntscr == scale,
            frame.with_scaling(scale).cntcr.contains(CntCr::SCEN()),
            frame.without_scaling().cntscr == 0,
            !frame.without_scaling().cntcr.contains(CntCr::SCEN()),
    {
        CntCr::lemma_flag_set_clear(frame.cntcr, CntCr::SCEN());
    }

    /// Enabling or disabling the counter decides the enable flag and leaves
    /// the other two flags and the requested frequency mode as they were.
    pub proof fn lemma_enable_keeps_rest(frame: CntControlBase, enable: bool)
        ensures
            frame.with_enable(enable).cntcr.contains(CntCr::EN()) == enable,
            frame.with_enable(enable).cntcr.contains(CntCr::SCEN()) == frame.cntcr.contains(
                CntCr::SCEN(),
            ),
            frame.with_enable(enable).cntcr.contains(CntCr::HDBG()) == frame.cntcr.contains(
                CntCr::HDBG(),
            ),
            frame.with_enable(enable).cntcr.fcreq() == frame.cntcr.fcreq(),
    {
        CntCr::lemma_flag_set_clear(frame.cntcr, CntCr::EN());
        CntCr::lemma_flag_independent(frame.cntcr, CntCr::EN(), CntCr::SCEN());
        CntCr::lemma_flag_independent(frame.cntcr, CntCr::EN(), CntCr::HDBG());
    }

    /// A frequency mode is reported as absent exactly where its slot holds
    /// 0; any other slot value is reported as it is.
    pub proof fn lemma_frequency_of_slot(slot: u32)
        ensures
            frequency_of_slot(slot) is None <==> slot == 0,
            slot != 0 ==> frequency_of_slot(slot) == Some(slot),
    {
    }
}

} // verus!
