//! Decision logic of a firmware that interrupts a flash write at a calibrated
//! moment in order to provoke an ECC fault in a chosen flash region.
//!
//! Nothing in this crate touches hardware.  The flash driver hands out the
//! register accesses it wants performed one at a time and is told what each
//! read returned; the calibration engine and the fault classifier are functions
//! of the values read from the backup registers and the ECC fault register.

pub mod registers;
pub mod flash;
pub mod sequence;
pub mod calibration;
pub mod search;
pub mod fault;
pub mod boot;
