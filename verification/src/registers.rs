//! Bit layout of the flash controller registers and the meaning of a status word.

use vstd::prelude::*;
use crate::flash::Error;

verus! {

/// The flash controller registers the driver reads and writes.
#[derive(Debug, Clone, Copy, PartialEq, Eq, Structural)]
pub enum Register {
    /// Key register: takes the unlock sequence.
    Key,
    /// Control register.
    Control,
    /// Status register.
    Status,
}

/// First value of the unlock sequence.
pub const KEY1: u32 = 0x4567_0123;

/// Second value of the unlock sequence.
pub const KEY2: u32 = 0xCDEF_89AB;

/// Control register: programming enable.
pub const CR_PG: u32 = 0x0000_0001;

/// Control register: page erase enable.
pub const CR_PER: u32 = 0x0000_0002;

/// Control register: page number field, bits 3 to 10.
pub const CR_PNB: u32 = 0x0000_07F8;

/// Control register: bank selection for the page erase.
pub const CR_BKER: u32 = 0x0000_0800;

/// Control register: start of the erase operation.
pub const CR_START: u32 = 0x0001_0000;

/// Control register: lock bit.
pub const CR_LOCK: u32 = 0x8000_0000;

/// Status register: end of operation.
pub const SR_EOP: u32 = 0x0000_0001;

/// Status register: programming error.
pub const SR_PROGERR: u32 = 0x0000_0008;

/// Status register: write protection error.
pub const SR_WRPERR: u32 = 0x0000_0010;

/// Status register: programming alignment error.
pub const SR_PGAERR: u32 = 0x0000_0020;

/// Status register: size error.
pub const SR_SIZERR: u32 = 0x0000_0040;

/// Status register: programming sequence error.
pub const SR_PGSERR: u32 = 0x0000_0080;

/// Status register: fast programming data miss error.
pub const SR_MISERR: u32 = 0x0000_0100;

/// Status register: fast programming error.
pub const SR_FASTERR: u32 = 0x0000_0200;

/// Status register: busy.
pub const SR_BSY: u32 = 0x0001_0000;

/// Status register: every sticky programming-error flag.
pub const SR_ERRORS: u32 = 0x0000_03F8;

/// Number of pages of the flash array in single-bank mode.
pub const PAGE_COUNT: u32 = 256;

/// Size of one flash page in bytes.
pub const PAGE_SIZE: u32 = 0x800;

/// Whether the status word `status` reports an operation in progress.
pub open spec fn busy(status: u32) -> bool {
    status & SR_BSY != 0
}

/// Whether the status word `status` carries a programming-error flag.
pub open spec fn faulted(status: u32) -> bool {
    status & SR_ERRORS != 0
}

/// What a status word means for the next operation: `Busy` while the busy flag
/// is set, else `Illegal` if a programming-error flag is set, else ready.
pub open spec fn readiness(status: u32) -> Result<(), Error> {
    if busy(status) {
        Err(Error::Busy)
    } else if faulted(status) {
        Err(Error::Illegal)
    } else {
        Ok(())
    }
}

/// The value a read-modify-write stores for the value `read`: the bits of
/// `clear` cleared, then the bits of `set` set.
pub open spec fn updated(read: u32, clear: u32, set: u32) -> u32 {
    (read & !clear) | set
}

/// Tests the busy flag of a status word.
pub fn is_busy(status: u32) -> (b: bool)
    ensures
        b == busy(status),
{
    status & SR_BSY != 0
}

/// Tests the programming-error flags of a status word.
pub fn has_fault(status: u32) -> (b: bool)
    ensures
        b == faulted(status),
{
    status & SR_ERRORS != 0
}

/// Classifies a status word.
pub fn status(word: u32) -> (result: Result<(), Error>)
    ensures
        result == readiness(word),
{
    if is_busy(word) {
        Err(Error::Busy)
    } else if has_fault(word) {
        Err(Error::Illegal)
    } else {
        Ok(())
    }
}

/// Computes the value a read-modify-write stores.
pub fn update(read: u32, clear: u32, set: u32) -> (value: u32)
    ensures
        value == updated(read, clear, set),
{
    (read & !clear) | set
}

/// The error mask is exactly the seven programming-error flags, and none of
/// them is the busy flag or the end-of-operation flag.
pub proof fn lemma_error_mask()
    ensures
        SR_ERRORS == SR_PROGERR | SR_WRPERR | SR_PGAERR | SR_SIZERR | SR_PGSERR | SR_MISERR
            | SR_FASTERR,
        SR_ERRORS & SR_BSY == 0,
        SR_ERRORS & SR_EOP == 0,
{
    assert(0x0000_03F8u32 == 0x08u32 | 0x10u32 | 0x20u32 | 0x40u32 | 0x80u32 | 0x100u32 | 0x200u32)
        by (bit_vector);
    assert(0x0000_03F8u32 & 0x0001_0000u32 == 0) by (bit_vector);
    assert(0x0000_03F8u32 & 0x0000_0001u32 == 0) by (bit_vector);
}

/// A status word is faulted exactly when one of the seven programming-error
/// flags is set in it.
pub proof fn lemma_faulted_by_any_flag(status: u32)
    ensures
        faulted(status) <==> status & SR_PROGERR != 0 || status & SR_WRPERR != 0 || status
            & SR_PGAERR != 0 || status & SR_SIZERR != 0 || status & SR_PGSERR != 0 || status
            & SR_MISERR != 0 || status & SR_FASTERR != 0,
{
    assert(status & 0x0000_03F8u32 != 0 <==> status & 0x08u32 != 0 || status & 0x10u32 != 0
        || status & 0x20u32 != 0 || status & 0x40u32 != 0 || status & 0x80u32 != 0 || status
        & 0x100u32 != 0 || status & 0x200u32 != 0) by (bit_vector);
}

/// A read-modify-write sets the bits of `set`, clears the bits of `clear`
/// that are not set again, and leaves every other bit as it was read.
pub proof fn lemma_update_touches_its_bits_only(read: u32, clear: u32, set: u32)
    ensures
        updated(read, clear, set) & set == set,
        updated(read, clear, set) & (clear & !set) == 0,
        updated(read, clear, set) & !(clear | set) == read & !(clear | set),
{
    assert(((read & !clear) | set) & set == set) by (bit_vector);
    assert(((read & !clear) | set) & (clear & !set) == 0) by (bit_vector);
    assert(((read & !clear) | set) & !(clear | set) == read & !(clear | set)) by (bit_vector);
}

} // verus!
