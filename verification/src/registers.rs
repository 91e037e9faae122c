//! Typed values of the individual registers.
//!
//! Each type wraps the raw register word. The named flags of a register are
//! associated functions that return a value with just that bit set; the
//! flag operations are bitwise and keep every bit they are not asked to
//! change.

pub mod cntacr;
pub mod cntcr;
pub mod cntel0acr;
pub mod cntid;
pub mod cntsr;
pub mod features;
pub mod timer_control;
