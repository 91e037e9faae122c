//! The register frames of the memory map.
//!
//! A frame is one 4096-byte region of the peripheral. Each type below lists
//! the registers of one kind of frame in the order of the architecture's
//! memory map, reserved and implementation-defined regions included, and
//! holds their contents as plain values. A register that the peripheral
//! only lets software read is marked read-only; no driver operation ever
//! changes one.

use crate::registers::cntacr::CntAcr;
use crate::registers::cntcr::CntCr;
use crate::registers::cntel0acr::CntEl0Acr;
use crate::registers::cntid::CntId;
use crate::registers::cntsr::CntSr;
use crate::registers::timer_control::TimerControl;
use vstd::prelude::*;

verus! {

/// Number of frequency-mode slots in the control frame.
pub const FREQUENCY_MODES: usize = 40;

/// Number of timer frames that the per-frame tables describe.
pub const TIMER_FRAMES: usize = 8;

/// Whether every word of a region is zero.
pub open spec fn zero_words(words: Seq<u32>) -> bool {
    forall|i: int| 0 <= i < words.len() ==> words[i] == 0
}

/// Whether every double word of a region is zero.
pub open spec fn zero_double_words(words: Seq<u64>) -> bool {
    forall|i: int| 0 <= i < words.len() ==> words[i] == 0
}

/// The registers of the CNTControlBase frame.
#[derive(Clone, Debug, PartialEq, Eq)]
pub struct CntControlBase {
    /// 0x000 Counter Control Register.
    pub cntcr: CntCr,
    /// 0x004 Counter Status Register. Read-only.
    pub cntsr: CntSr,
    /// 0x008 Counter Count Value register.
    pub cntcv: u64,
    /// 0x010 Counter Scale register.
    pub cntscr: u32,
    /// 0x014 Reserved.
    pub reserved_14: [u32; 2],
    /// 0x01c Counter ID register. Read-only.
    pub cntid: CntId,
    /// 0x020 Frequency modes table. A slot that holds 0 is not implemented.
    pub cntfid: [u32; 40],
    /// 0x0c0 Implementation defined.
    pub impdef_0c0: [u32; 16],
    /// 0x100 Reserved.
    pub reserved_100: [u32; 948],
    /// 0xfd0 Counter ID registers. Read-only.
    pub counter_id: [u32; 12],
}

impl CntControlBase {
    /// Whether every register and every reserved word of the frame is zero.
    pub open spec fn is_zeroed(self) -> bool {
        &&& self.cntcr@ == 0
        &&& self.cntsr@ == 0
        &&& self.cntcv == 0
        &&& self.cntscr == 0
        &&& zero_words(self.reserved_14@)
        &&& self.cntid@ == 0
        &&& zero_words(self.cntfid@)
        &&& zero_words(self.impdef_0c0@)
        &&& zero_words(self.reserved_100@)
        &&& zero_words(self.counter_id@)
    }

    /// The frame after a reset to all zeroes.
    pub fn zeroed() -> (frame: CntControlBase)
        ensures
            frame.is_zeroed(),
    {
        CntControlBase {
            cntcr: CntCr(0),
            cntsr: CntSr(0),
            cntcv: 0,
            cntscr: 0,
            reserved_14: [0u32;2],
            cntid: CntId(0),
            cntfid: [0u32;40],
            impdef_0c0: [0u32;16],
            reserved_100: [0u32;948],
            counter_id: [0u32;12],
        }
    }
}

/// The registers of the CNTReadBase frame. All of it is read-only.
#[derive(Clone, Debug, PartialEq, Eq)]
pub struct CntReadBase {
    /// 0x000 Counter Count Value register. Read-only.
    pub cntcv: u64,
    /// 0x008 Reserved.
    pub reserved_8: [u32; 1010],
    /// 0xfd0 Counter ID registers. Read-only.
    pub counter_id: [u32; 12],
}

impl CntReadBase {
    /// Whether every register and every reserved word of the frame is zero.
    pub open spec fn is_zeroed(self) -> bool {
        &&& self.cntcv == 0
        &&& zero_words(self.reserved_8@)
        &&& zero_words(self.counter_id@)
    }

    /// The frame after a reset to all zeroes.
    pub fn zeroed() -> (frame: CntReadBase)
        ensures
            frame.is_zeroed(),
    {
        CntReadBase { cntcv: 0, reserved_8: [0u32;1010], counter_id: [0u32;12] }
    }
}

/// The registers of the CNTCTLBase frame.
#[derive(Clone, Debug, PartialEq, Eq)]
pub struct CntCtlBase {
    /// 0x000 Counter-timer Frequency.
    pub cntfrq: u32,
    /// 0x004 Counter-timer Non-secure Access Register. Bit `n` is for timer
    /// frame `n`.
    pub cntnsar: u32,
    /// 0x008 Counter-timer Timer ID Register. Read-only.
    pub cnttidr: u32,
    /// 0x00c Reserved.
    pub reserved_00c: [u32; 13],
    /// 0x040 Counter-timer Access Control Registers, one per timer frame.
    pub cntacr: [CntAcr; 8],
    /// 0x060 Reserved.
    pub reserved_060: [u32; 8],
    /// 0x080 Counter-timer Virtual Offsets, one per timer frame.
    pub cntvoff: [u64; 8],
    /// 0x0c0 Reserved.
    pub reserved_0c0: [u32; 16],
    /// 0x100 Implementation defined.
    pub impdef_100: [u32; 448],
    /// 0x800 Reserved.
    pub reserved_800: [u32; 496],
    /// 0xfc0 Implementation defined.
    pub impdef_fc0: [u32; 4],
    /// 0xfd0 Counter ID registers. Read-only.
    pub counter_id: [u32; 12],
}

impl CntCtlBase {
    /// Whether every register and every reserved word of the frame is zero.
    pub open spec fn is_zeroed(self) -> bool {
        &&& self.cntfrq == 0
        &&& self.cntnsar == 0
        &&& self.cnttidr == 0
        &&& zero_words(self.reserved_00c@)
        &&& forall|i: int| 0 <= i < 8 ==> (#[trigger] self.cntacr@[i])@ == 0
        &&& zero_words(self.reserved_060@)
        &&& zero_double_words(self.cntvoff@)
        &&& zero_words(self.reserved_0c0@)
        &&& zero_words(self.impdef_100@)
        &&& zero_words(self.reserved_800@)
        &&& zero_words(self.impdef_fc0@)
        &&& zero_words(self.counter_id@)
    }

    /// The frame after a reset to all zeroes.
    pub fn zeroed() -> (frame: CntCtlBase)
        ensures
            frame.is_zeroed(),
    {
        CntCtlBase {
            cntfrq: 0,
            cntnsar: 0,
            cnttidr: 0,
            reserved_00c: [0u32;13],
            cntacr: [CntAcr(0);8],
            reserved_060: [0u32;8],
            cntvoff: [0u64;8],
            reserved_0c0: [0u32;16],
            impdef_100: [0u32;448],
            reserved_800: [0u32;496],
            impdef_fc0: [0u32;4],
            counter_id: [0u32;12],
        }
    }
}

/// The registers of one comparator timer, physical or virtual, as they are
/// repeated inside a timer frame.
#[derive(Clone, Debug, PartialEq, Eq)]
pub struct TimerRegs {
    /// 0x000 Counter-timer Timer CompareValue.
    pub cval: u64,
    /// 0x008 Counter-timer Timer TimerValue.
    pub tval: u32,
    /// 0x00c Counter-timer Timer Control.
    pub ctl: TimerControl,
}

impl TimerRegs {
    /// Whether every register of the group is zero.
    pub open spec fn is_zeroed(self) -> bool {
        &&& self.cval == 0
        &&& self.tval == 0
        &&& self.ctl@ == 0
    }

    /// The registers after a reset to all zeroes.
    pub fn zeroed() -> (regs: TimerRegs)
        ensures
            regs.is_zeroed(),
    {
        TimerRegs { cval: 0, tval: 0, ctl: TimerControl(0) }
    }
}

/// The registers of a CNTBaseN timer frame.
#[derive(Clone, Debug, PartialEq, Eq)]
pub struct CntBase {
    /// 0x000 Counter-timer Physical Count. Read-only.
    pub cntpct: u64,
    /// 0x008 Counter-timer Virtual Count. Read-only.
    pub cntvct: u64,
    /// 0x010 Counter-timer Frequency. Read-only.
    pub cntfrq: u32,
    /// 0x014 Counter-timer EL0 Access Control Register.
    pub cntel0acr: CntEl0Acr,
    /// 0x018 Counter-timer Virtual Offset. Read-only.
    pub cntvoff: u64,
    /// 0x020 Physical timer.
    pub cntp: TimerRegs,
    /// 0x030 Virtual timer.
    pub cntv: TimerRegs,
    /// 0x040 Reserved.
    pub reserved: [u32; 996],
    /// 0xfd0 Counter ID registers. Read-only.
    pub counter_id: [u32; 12],
}

impl CntBase {
    /// Whether every register and every reserved word of the frame is zero.
    pub open spec fn is_zeroed(self) -> bool {
        &&& self.cntpct == 0
        &&& self.cntvct == 0
        &&& self.cntfrq == 0
        &&& self.cntel0acr@ == 0
        &&& self.cntvoff == 0
        &&& self.cntp.is_zeroed()
        &&& self.cntv.is_zeroed()
        &&& zero_words(self.reserved@)
        &&& zero_words(self.counter_id@)
    }

    /// The frame after a reset to all zeroes.
    pub fn zeroed() -> (frame: CntBase)
        ensures
            frame.is_zeroed(),
    {
        CntBase {
            cntpct: 0,
            cntvct: 0,
            cntfrq: 0,
            cntel0acr: CntEl0Acr(0),
            cntvoff: 0,
            cntp: TimerRegs::zeroed(),
            cntv: TimerRegs::zeroed(),
            reserved: [0u32;996],
            counter_id: [0u32;12],
        }
    }
}

/// The registers of a CNTEL0BaseN frame, the second view of a timer frame.
///
/// It is laid out as [`CntBase`] is, except that the EL0 access control
/// register and the virtual offset are never visible in it: their place is
/// reserved.
#[derive(Clone, Debug, PartialEq, Eq)]
pub struct CntEl0Base {
    /// 0x000 Counter-timer Physical Count. Read-only.
    pub cntpct: u64,
    /// 0x008 Counter-timer Virtual Count. Read-only.
    pub cntvct: u64,
    /// 0x010 Counter-timer Frequency. Read-only.
    pub cntfrq: u32,
    /// 0x014 Reserved.
    pub reserved_014: [u32; 3],
    /// 0x020 Physical timer.
    pub cntp: TimerRegs,
    /// 0x030 Virtual timer.
    pub cntv: TimerRegs,
    /// 0x040 Reserved.
    pub reserved: [u32; 996],
    /// 0xfd0 Counter ID registers. Read-only.
    pub counter_id: [u32; 12],
}

impl CntEl0Base {
    /// Whether every register and every reserved word of the frame is zero.
    pub open spec fn is_zeroed(self) -> bool {
        &&& self.cntpct == 0
        &&& self.cntvct == 0
        &&& self.cntfrq == 0
        &&& zero_words(self.reserved_014@)
        &&& self.cntp.is_zeroed()
        &&& self.cntv.is_zeroed()
        &&& zero_words(self.reserved@)
        &&& zero_words(self.counter_id@)
    }

    /// The frame after a reset to all zeroes.
    pub fn zeroed() -> (frame: CntEl0Base)
        ensures
            frame.is_zeroed(),
    {
        CntEl0Base {
            cntpct: 0,
            cntvct: 0,
            cntfrq: 0,
            reserved_014: [0u32;3],
            cntp: TimerRegs::zeroed(),
            cntv: TimerRegs::zeroed(),
            reserved: [0u32;996],
            counter_id: [0u32;12],
        }
    }
}

} // verus!
