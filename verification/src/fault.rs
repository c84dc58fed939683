//! What a fault means: decoding the ECC fault register, deciding whether the
//! fault lies in the region under attack, and what the firmware shows for it.

use vstd::prelude::*;
use crate::calibration::{Slot, SlotWrite};
use crate::registers::PAGE_SIZE;

verus! {

/// ECC fault register: address of the failing double word, bits 0 to 18.
pub const ECCR_ADDR: u32 = 0x0007_FFFF;

/// ECC fault register: bank of the failing double word.
pub const ECCR_BANK: u32 = 0x0008_0000;

/// ECC fault register: a double error was detected.
pub const ECCR_ECCD: u32 = 0x8000_0000;

/// Where the bank bit stands in a fault address.
pub const BANK_OFFSET: u32 = 0x0010_0000;

/// The lowest address a target region may start at.  The pages below it hold
/// the firmware itself.
pub const LOWEST_TARGET: u32 = 8192;

/// The flash region under attack.
#[derive(Debug, Clone, Copy, PartialEq, Eq, Structural)]
pub struct TargetRegion {
    address: u32,
    length: u32,
}

/// A region may be attacked if it starts above the firmware, is not empty,
/// and the double words that cover it end inside the address space.
pub open spec fn attackable(address: u32, length: u32) -> bool {
    address >= LOWEST_TARGET && length > 0 && address + 8 * (length / 8 + 1) <= 0x1_0000_0000
}

impl TargetRegion {
    /// First byte address of the region.
    pub closed spec fn start(self) -> u32 {
        self.address
    }

    /// Number of bytes in the region.
    pub closed spec fn size(self) -> u32 {
        self.length
    }

    #[verifier::type_invariant]
    spec fn inv(self) -> bool {
        attackable(self.address, self.length)
    }

    /// Whether `address` lies in the region.
    pub open spec fn holds(self, address: u32) -> bool {
        self.start() <= address < self.start() + self.size()
    }

    /// The region of `length` bytes at `address`, if it may be attacked.
    pub fn new(address: u32, length: u32) -> (region: Option<TargetRegion>)
        ensures
            region is Some <==> attackable(address, length),
            region matches Some(target) ==> target.start() == address && target.size() == length,
    {
        if address < LOWEST_TARGET || length == 0 {
            return None;
        }
        let end: u64 = address as u64 + 8 * (length as u64 / 8 + 1);
        if end > 0x1_0000_0000 {
            return None;
        }
        Some(TargetRegion { address, length })
    }

    /// First byte address of the region.
    pub fn address(&self) -> (address: u32)
        ensures
            address == self.start(),
            attackable(self.start(), self.size()),
    {
        proof {
            use_type_invariant(self);
        }
        self.address
    }

    /// Number of bytes in the region.
    pub fn length(&self) -> (length: u32)
        ensures
            length == self.size(),
            attackable(self.start(), self.size()),
    {
        proof {
            use_type_invariant(self);
        }
        self.length
    }

    /// The page that holds the start of the region.  It is never one of the
    /// pages of the firmware.
    pub fn page(&self) -> (page: u32)
        ensures
            page == self.start() / PAGE_SIZE,
            page >= LOWEST_TARGET / PAGE_SIZE,
            page != 0,
    {
        proof {
            use_type_invariant(self);
        }
        self.address / PAGE_SIZE
    }

    /// Whether `address` lies in the region.
    pub fn contains(&self, address: u32) -> (inside: bool)
        ensures
            inside == self.holds(address),
    {
        address >= self.address && address - self.address < self.length
    }

    /// The double words that are programmed over the region: zeros, since an
    /// erased page holds ones, and one more than fit into the region.
    pub fn payload(&self) -> (words: Vec<u64>)
        ensures
            words@.len() == self.size() / 8 + 1,
            forall|i: int| 0 <= i < words@.len() ==> words@[i] == 0,
            self.start() != 0,
            self.start() + 8 * words@.len() <= 0x1_0000_0000,
    {
        proof {
            use_type_invariant(self);
        }
        let count: u32 = self.length / 8 + 1;
        let mut words: Vec<u64> = Vec::new();
        let mut index: u32 = 0;
        while index < count
            invariant
                index <= count,
                words@.len() == index,
                forall|i: int| 0 <= i < words@.len() ==> words@[i] == 0,
            decreases count - index,
        {
            words.push(0);
            index = index + 1;
        }
        words
    }
}

/// What the ECC fault register said when a fault was taken.
#[derive(Debug, Clone, Copy, PartialEq, Eq, Structural)]
pub struct FaultRecord {
    /// An uncorrectable double error was detected.
    pub double_error: bool,
    /// Address bits of the failing double word.
    pub address: u32,
    /// The failing double word lies in the second bank.
    pub bank: bool,
}

/// What a fault means for the experiment.
#[derive(Debug, Clone, Copy, PartialEq, Eq, Structural)]
pub enum Outcome {
    /// A double error inside the target region: the corruption has succeeded.
    Success,
    /// A double error somewhere else.
    OffTarget,
    /// A fault that is no double error.
    Unrelated,
}

/// The three indicator outputs.
#[derive(Debug, Clone, Copy, PartialEq, Eq, Structural)]
pub struct Indicators {
    /// The ready or success line.
    pub green: bool,
    /// The failure line.
    pub red: bool,
    /// The in-progress line.
    pub blue: bool,
}

/// What the fault handler does once it has classified the fault.  It never
/// returns to the interrupted code.
#[derive(Debug, Clone, Copy, PartialEq, Eq, Structural)]
pub struct Reaction {
    /// The levels to drive the indicator lines to.
    pub show: Indicators,
    /// A write that ends the experiment, if it is over.
    pub write: Option<SlotWrite>,
    /// Whether the final loop feeds the watchdog.  Where it does not, the
    /// watchdog resets the board and the search goes on.
    pub feed: bool,
}

impl FaultRecord {
    /// The fields of an ECC fault register value.
    pub open spec fn decoded(register: u32) -> FaultRecord {
        FaultRecord {
            double_error: register & ECCR_ECCD != 0,
            address: register & ECCR_ADDR,
            bank: register & ECCR_BANK != 0,
        }
    }

    /// The address of the fault: the address bits with the bank above them.
    pub open spec fn location(self) -> u32 {
        self.address | if self.bank {
            BANK_OFFSET
        } else {
            0
        }
    }

    /// What the fault means for an attack on `target`.
    pub open spec fn verdict(self, target: TargetRegion) -> Outcome {
        if !self.double_error {
            Outcome::Unrelated
        } else if target.holds(self.location()) {
            Outcome::Success
        } else {
            Outcome::OffTarget
        }
    }

    /// Takes an ECC fault register value apart.
    pub fn decode(register: u32) -> (record: FaultRecord)
        ensures
            record == FaultRecord::decoded(register),
    {
        FaultRecord {
            double_error: register & ECCR_ECCD != 0,
            address: register & ECCR_ADDR,
            bank: register & ECCR_BANK != 0,
        }
    }

    /// Computes the address of the fault.
    pub fn fault_address(&self) -> (address: u32)
        ensures
            address == self.location(),
    {
        let bank: u32 = if self.bank {
            BANK_OFFSET
        } else {
            0
        };
        self.address | bank
    }

    /// Classifies the fault.
    pub fn classify(&self, target: &TargetRegion) -> (outcome: Outcome)
        ensures
            outcome == self.verdict(*target),
    {
        if !self.double_error {
            Outcome::Unrelated
        } else if target.contains(self.fault_address()) {
            Outcome::Success
        } else {
            Outcome::OffTarget
        }
    }
}

impl Outcome {
    /// What the fault handler does for this outcome.  Success shows the green
    /// line alone, clears the magic slot so that the experiment is seen to be
    /// over, and keeps the watchdog fed for good.  A double error off target
    /// shows the red line alone; any other fault shows red and blue together.
    pub open spec fn reaction(self) -> Reaction {
        match self {
            Outcome::Success => Reaction {
                show: Indicators { green: true, red: false, blue: false },
                write: Some(SlotWrite { slot: Slot::Magic, value: 0 }),
                feed: true,
            },
            Outcome::OffTarget => Reaction {
                show: Indicators { green: false, red: true, blue: false },
                write: None,
                feed: false,
            },
            Outcome::Unrelated => Reaction {
                show: Indicators { green: false, red: true, blue: true },
                write: None,
                feed: false,
            },
        }
    }

    /// Decides what the fault handler does.
    pub fn react(self) -> (reaction: Reaction)
        ensures
            reaction == self.reaction(),
    {
        match self {
            Outcome::Success => Reaction {
                show: Indicators { green: true, red: false, blue: false },
                write: Some(SlotWrite { slot: Slot::Magic, value: 0 }),
                feed: true,
            },
            Outcome::OffTarget => Reaction {
                show: Indicators { green: false, red: true, blue: false },
                write: None,
                feed: false,
            },
            Outcome::Unrelated => Reaction {
                show: Indicators { green: false, red: true, blue: true },
                write: None,
                feed: false,
            },
        }
    }
}

impl Reaction {
    /// What the panic handler does: the red line alone, the magic slot
    /// cleared so that the next boot starts the search afresh, and the
    /// watchdog fed for good.
    pub open spec fn on_panic() -> Reaction {
        Reaction {
            show: Indicators { green: false, red: true, blue: false },
            write: Some(SlotWrite { slot: Slot::Magic, value: 0 }),
            feed: true,
        }
    }

    /// Decides what the panic handler does.
    pub fn fatal() -> (reaction: Reaction)
        ensures
            reaction == Reaction::on_panic(),
    {
        Reaction {
            show: Indicators { green: false, red: true, blue: false },
            write: Some(SlotWrite { slot: Slot::Magic, value: 0 }),
            feed: true,
        }
    }
}

/// Classification of an ECC fault register value.  Without the double-error
/// bit the fault is unrelated, whatever the address bits hold.  With it, the
/// fault is a success exactly when the address lies in the target region, and
/// off target otherwise.  Success is the only outcome that ends the search.
pub proof fn lemma_classification(register: u32, target: TargetRegion)
    ensures
        register & ECCR_ECCD == 0 ==> FaultRecord::decoded(register).verdict(target)
            == Outcome::Unrelated,
        register & ECCR_ECCD != 0 && target.holds(FaultRecord::decoded(register).location())
            ==> FaultRecord::decoded(register).verdict(target) == Outcome::Success,
        register & ECCR_ECCD != 0 && !target.holds(FaultRecord::decoded(register).location())
            ==> FaultRecord::decoded(register).verdict(target) == Outcome::OffTarget,
        FaultRecord::decoded(register).verdict(target).reaction().feed <==> FaultRecord::decoded(
            register,
        ).verdict(target) == Outcome::Success,
        FaultRecord::decoded(register).verdict(target).reaction().write is Some
            <==> FaultRecord::decoded(register).verdict(target) == Outcome::Success,
{
}

/// The address of a decoded fault is the address field of the register, plus
/// the bank offset where the bank bit is set.
pub proof fn lemma_location(register: u32)
    ensures
        FaultRecord::decoded(register).location() == (register & ECCR_ADDR) + (if register
            & ECCR_BANK != 0 {
            BANK_OFFSET as int
        } else {
            0
        }),
        register & ECCR_ADDR <= ECCR_ADDR,
{
    assert((register & 0x0007_FFFFu32) | 0 == register & 0x0007_FFFFu32) by (bit_vector);
    assert((register & 0x0007_FFFFu32) | 0x0010_0000u32 == (register & 0x0007_FFFFu32)
        + 0x0010_0000u32) by (bit_vector);
    assert(register & 0x0007_FFFFu32 <= 0x0007_FFFFu32) by (bit_vector);
}

} // verus!
