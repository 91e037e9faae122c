//! Driver for the CNTCTLBase frame.

use crate::bits::{bit, byte_of, lemma_with_bit, with_bit};
use crate::layout::{CntCtlBase, TIMER_FRAMES};
use crate::registers::cntacr::CntAcr;
use crate::registers::features::Features;
use vstd::prelude::*;

verus! {

/// Whether the non-secure access register grants non-secure accesses to
/// timer frame `index`: bit `index` of the register.
pub fn non_secure_bit(cntnsar: u32, index: usize) -> (granted: bool)
    requires
        index < TIMER_FRAMES,
    ensures
        granted == bit(cntnsar, index as u32),
{
    cntnsar & (1u32 << (index as u32)) != 0
}

/// The non-secure access register with the bit of timer frame `index` set
/// to `enable` and the bits of the other frames as they are.
pub fn with_non_secure_bit(cntnsar: u32, index: usize, enable: bool) -> (word: u32)
    requires
        index < TIMER_FRAMES,
    ensures
        word == with_bit(cntnsar, index as u32, enable),
{
    if enable {
        cntnsar | (1u32 << (index as u32))
    } else {
        cntnsar & !(1u32 << (index as u32))
    }
}

/// The features of timer frame `index` as the timer ID register reports
/// them: the named flags of byte `index` of the register.
pub fn frame_features(cnttidr: u32, index: usize) -> (features: Features)
    requires
        index < TIMER_FRAMES,
    ensures
        features == Features::from_bits_truncate(byte_of(cnttidr, index as nat)),
{
    if index < 4 {
        let shift: u32 = (index as u32) * 8;
        let byte: u8 = #[verifier::truncate] ((cnttidr >> shift) as u8);
        proof {
            assert(byte == ((cnttidr >> shift) & 0xff) as u8) by (bit_vector)
                requires
                    byte == (cnttidr >> shift) as u8,
            ;
        }
        Features::from_bits_truncate(byte)
    } else {
        Features::from_bits_truncate(0)
    }
}

/// Driver for the CNTCTLBase frame. It owns the frame for as long as it
/// lives.
pub struct GenericTimerCtl {
    regs: CntCtlBase,
}

impl View for GenericTimerCtl {
    type V = CntCtlBase;

    /// The frame as the driver holds it.
    closed spec fn view(&self) -> CntCtlBase {
        self.regs
    }
}

impl GenericTimerCtl {
    /// Takes over the frame.
    pub fn new(regs: CntCtlBase) -> (driver: GenericTimerCtl)
        ensures
            driver@ == regs,
    {
        GenericTimerCtl { regs }
    }

    /// The frame as it is now.
    pub fn regs(&self) -> (regs: &CntCtlBase)
        ensures
            *regs == self@,
    {
        &self.regs
    }

    /// Gives the frame back.
    pub fn into_regs(self) -> (regs: CntCtlBase)
        ensures
            regs == self@,
    {
        self.regs
    }

    /// The counter frequency in Hz.
    pub fn frequency(&self) -> (frequency: u32)
        ensures
            frequency == self@.cntfrq,
    {
        self.regs.cntfrq
    }

    /// Sets the counter frequency in Hz.
    pub fn set_frequency(&mut self, frequency: u32)
        ensures
            final(self)@ == (CntCtlBase { cntfrq: frequency, ..old(self)@ }),
    {
        self.regs.cntfrq = frequency;
    }

    /// Whether non-secure accesses may reach timer frame `index`.
    pub fn non_secure_access(&self, index: usize) -> (granted: bool)
        requires
            index < TIMER_FRAMES,
        ensures
            granted == bit(self@.cntnsar, index as u32),
    {
        let cntnsar = self.regs.cntnsar;
        non_secure_bit(cntnsar, index)
    }

    /// Grants or denies non-secure accesses to timer frame `index`. The
    /// bits of the other frames, and every other register, keep their
    /// value.
    pub fn set_non_secure_access(&mut self, index: usize, enable: bool)
        requires
            index < TIMER_FRAMES,
        ensures
            final(self)@ == (CntCtlBase {
                cntnsar: with_bit(old(self)@.cntnsar, index as u32, enable),
                ..old(self)@
            }),
    {
        let cntnsar = self.regs.cntnsar;
        self.regs.cntnsar = with_non_secure_bit(cntnsar, index, enable);
    }

    /// The features of timer frame `index`.
    pub fn features(&self, index: usize) -> (features: Features)
        requires
            index < TIMER_FRAMES,
        ensures
            features == Features::from_bits_truncate(byte_of(self@.cnttidr, index as nat)),
    {
        let cnttidr = self.regs.cnttidr;
        frame_features(cnttidr, index)
    }

    /// The top-level access controls of timer frame `index`.
    pub fn access_control(&self, index: usize) -> (cntacr: CntAcr)
        requires
            index < TIMER_FRAMES,
        ensures
            cntacr == self@.cntacr@[index as int],
    {
        self.regs.cntacr[index]
    }

    /// Sets the top-level access controls of timer frame `index`.
    pub fn set_access_control(&mut self, index: usize, cntacr: CntAcr)
        requires
            index < TIMER_FRAMES,
        ensures
            final(self)@ == (CntCtlBase { cntacr: final(self)@.cntacr, ..old(self)@ }),
            final(self)@.cntacr@ == old(self)@.cntacr@.update(index as int, cntacr),
    {
        self.regs.cntacr[index] = cntacr;
    }

    /// The virtual offset of timer frame `index`.
    pub fn virtual_offset(&self, index: usize) -> (offset: u64)
        requires
            index < TIMER_FRAMES,
        ensures
            offset == self@.cntvoff@[index as int],
    {
        self.regs.cntvoff[index]
    }

    /// Sets the virtual offset of timer frame `index`: the difference
    /// between real time and virtual time.
    pub fn set_virtual_offset(&mut self, index: usize, offset: u64)
        requires
            index < TIMER_FRAMES,
        ensures
            final(self)@ == (CntCtlBase { cntvoff: final(self)@.cntvoff, ..old(self)@ }),
            final(self)@.cntvoff@ == old(self)@.cntvoff@.update(index as int, offset),
    {
        self.regs.cntvoff[index] = offset;
    }

    /// Each feature of a timer frame is one bit of the timer ID register:
    /// bit `8 * index` says that the frame is implemented, the next that it
    /// has virtual capability, the one after that it has a second view. A
    /// frame whose byte lies past the end of the register has no feature,
    /// and no other bit of the result is ever set.
    pub proof fn lemma_features_bits(cnttidr: u32, index: usize)
        requires
            index < TIMER_FRAMES,
        ensures
            ({
                let features = Features::from_bits_truncate(byte_of(cnttidr, index as nat));
                let first = (8 * index) as u32;
                &&& features.contains(Features::IMPLEMENTED()) == (index < 4 && bit(
                    cnttidr,
                    first,
                ))
                &&& features.contains(Features::VIRTUAL()) == (index < 4 && bit(
                    cnttidr,
                    (first + 1) as u32,
                ))
                &&& features.contains(Features::CNTEL0BASE()) == (index < 4 && bit(
                    cnttidr,
                    (first + 2) as u32,
                ))
                &&& Features::all().contains(features)
            }),
    {
        let i = index as u32;
        if index < 4 {
            let byte = ((cnttidr >> (8 * index as nat)) & 0xff) as u8;
            assert(byte == ((cnttidr >> (8 * i)) & 0xff) as u8);
            assert({
                &&& ((byte & 0x7) & 0x1 == 0x1) == (cnttidr & (1u32 << (8 * i)) != 0)
                &&& ((byte & 0x7) & 0x2 == 0x2) == (cnttidr & (1u32 << ((8 * i + 1) as u32)) != 0)
                &&& ((byte & 0x7) & 0x4 == 0x4) == (cnttidr & (1u32 << ((8 * i + 2) as u32)) != 0)
                &&& 0x7u8 & (byte & 0x7) == byte & 0x7
            }) by (bit_vector)
                requires
                    i < 4,
                    byte == ((cnttidr >> (8 * i)) & 0xff) as u8,
            ;
        } else {
            assert((0u8 & 0x7) & 0x1 != 0x1 && (0u8 & 0x7) & 0x2 != 0x2 && (0u8 & 0x7) & 0x4
                != 0x4 && 0x7u8 & (0u8 & 0x7) == 0u8 & 0x7) by (bit_vector);
        }
    }

    /// After non-secure access to a frame was set, it reads back as set,
    /// and the other seven frames read as they did before.
    pub proof fn lemma_non_secure_round_trip(cntnsar: u32, index: usize, enable: bool, at: usize)
        requires
            index < TIMER_FRAMES,
            at < TIMER_FRAMES,
        ensures
            bit(with_bit(cntnsar, index as u32, enable), at as u32) == if at == index {
                enable
            } else {
                bit(cntnsar, at as u32)
            },
    {
        lemma_with_bit(cntnsar, index as u32, enable, at as u32);
    }
}

} // verus!
