//! Arm Generic Timer: typed register values, the register frames of the
//! memory map, one driver per frame, and the comparator timer.
//!
//! The library works on register frames held as plain values. A driver owns
//! its frame, and each operation says in its contract what the frame holds
//! afterwards, register by register. What has to be decided when the
//! registers are device memory (which word to write, what a word that was
//! read means, where a deadline lies) is offered as functions from plain
//! values to plain values, so that code that performs the volatile accesses
//! has nothing left to decide.

pub mod bits;
pub mod cnt;
pub mod control;
pub mod ctl;
pub mod layout;
pub mod registers;
pub mod timer;

pub use cnt::{GenericTimerCnt, GenericTimerCntEl0};
pub use control::GenericTimerControl;
pub use ctl::GenericTimerCtl;
pub use layout::{CntBase, CntControlBase, CntCtlBase, CntEl0Base, CntReadBase, TimerRegs};
pub use registers::cntacr::CntAcr;
pub use registers::cntcr::CntCr;
pub use registers::cntel0acr::CntEl0Acr;
pub use registers::cntid::CntId;
pub use registers::cntsr::CntSr;
pub use registers::features::Features;
pub use registers::timer_control::TimerControl;
pub use timer::Timer;
