//! The timing search: a binary search over the injected delay that advances
//! by one step per boot.
//!
//! Each boot reads the phase that the previous boot left behind.  A boot that
//! never recorded the end of its write was reset too early, so the delay was
//! too long and the upper bound comes down to it.  A boot whose write returned
//! was reset too late, so the lower bound goes up to it.

use vstd::prelude::*;
use vstd::arithmetic::power2::{pow2, lemma_pow2_pos, lemma_pow2_unfold};
use crate::calibration::{CalibrationRecord, Phase, Slot, SlotWrite, stored, SLOT_COUNT};

verus! {

/// The narrowest interval that is still searched.
pub const MINIMUM_WIDTH: u32 = 5;

/// The delay in the middle of an interval.
pub open spec fn midpoint(bottom: u32, top: u32) -> u32 {
    ((bottom + top) / 2) as u32
}

/// Computes the delay in the middle of an interval.
pub fn middle(bottom: u32, top: u32) -> (delay: u32)
    ensures
        delay == midpoint(bottom, top),
{
    let sum: u64 = bottom as u64 + top as u64;
    (sum / 2) as u32
}

/// What a boot decides before it touches the flash.
#[derive(Debug)]
pub struct Attempt {
    /// The delay to spend between arming the watchdog and the write.
    pub delay: u32,
    /// The writes that record the decision; they are stored before the
    /// watchdog is armed.
    pub writes: Vec<SlotWrite>,
}

impl CalibrationRecord {
    /// The interval is too narrow to be searched further: the search has
    /// missed its target.
    pub open spec fn collapsed(self) -> bool {
        self.top - self.bottom < MINIMUM_WIDTH
    }

    /// The delay that an attempt on this record injects.
    pub open spec fn delay(self) -> u32 {
        midpoint(self.bottom, self.top)
    }

    /// The record after the narrowing that a boot applies: the bound that the
    /// recorded phase speaks against moves to the middle of the interval, and
    /// the phase says that an attempt is about to be made.
    pub open spec fn narrowed(self) -> CalibrationRecord {
        CalibrationRecord {
            magic: self.magic,
            bottom: if self.phase == Phase::AfterWrite {
                self.delay()
            } else {
                self.bottom
            },
            top: if self.phase == Phase::BeforeWrite {
                self.delay()
            } else {
                self.top
            },
            phase: Phase::BeforeWrite,
            reset_count: self.reset_count,
        }
    }

    /// The writes that store the narrowing: the bound that moved, if one did,
    /// and then the phase.
    pub open spec fn narrowing_writes(self) -> Seq<SlotWrite> {
        let phase = SlotWrite { slot: Slot::Phase, value: Phase::BeforeWrite.code() };
        match self.phase {
            Phase::NotStarted => seq![phase],
            Phase::BeforeWrite => seq![SlotWrite { slot: Slot::Top, value: self.delay() }, phase],
            Phase::AfterWrite => seq![
                SlotWrite { slot: Slot::Bottom, value: self.delay() },
                phase,
            ],
        }
    }

    /// Whether the interval has collapsed.  A boot that finds it so must not
    /// go on to an attempt.
    pub fn very_similar(&self) -> (similar: bool)
        ensures
            similar == self.collapsed(),
    {
        self.top < self.bottom || self.top - self.bottom < MINIMUM_WIDTH
    }

    /// Narrows the interval by the phase that the previous boot left, marks
    /// the record as about to write, and computes the delay of this boot from
    /// the narrowed interval.  The interval must not have collapsed.
    pub fn begin_attempt(&mut self) -> (attempt: Attempt)
        requires
            !old(self).collapsed(),
        ensures
            *final(self) == old(self).narrowed(),
            attempt.delay == final(self).delay(),
            attempt.writes@ == old(self).narrowing_writes(),
            old(self).bottom <= final(self).bottom <= final(self).top <= old(self).top,
            old(self).wf() ==> final(self).wf(),
            old(self).phase == Phase::BeforeWrite ==> attempt.delay <= old(self).delay(),
            old(self).phase == Phase::AfterWrite ==> attempt.delay >= old(self).delay(),
            old(self).phase == Phase::NotStarted ==> attempt.delay == old(self).delay(),
    {
        let previous = middle(self.bottom, self.top);
        let mut writes: Vec<SlotWrite> = Vec::new();
        match self.phase {
            Phase::BeforeWrite => {
                self.top = previous;
                writes.push(SlotWrite { slot: Slot::Top, value: previous });
            },
            Phase::AfterWrite => {
                self.bottom = previous;
                writes.push(SlotWrite { slot: Slot::Bottom, value: previous });
            },
            Phase::NotStarted => {},
        }
        self.phase = Phase::BeforeWrite;
        writes.push(SlotWrite { slot: Slot::Phase, value: Phase::BeforeWrite.to_code() });
        Attempt { delay: middle(self.bottom, self.top), writes }
    }

    /// Records that the write has returned: the watchdog did not fire during
    /// it.  Returns the write that stores the phase.
    pub fn finish_attempt(&mut self) -> (write: SlotWrite)
        ensures
            *final(self) == (CalibrationRecord { phase: Phase::AfterWrite, ..*old(self) }),
            write == (SlotWrite { slot: Slot::Phase, value: Phase::AfterWrite.code() }),
    {
        self.phase = Phase::AfterWrite;
        SlotWrite { slot: Slot::Phase, value: Phase::AfterWrite.to_code() }
    }
}

/// After `begin_attempt` and the writes it returns, the backup registers hold
/// the narrowed record.
pub proof fn lemma_narrowing_is_stored(slots: Seq<u32>)
    requires
        slots.len() == SLOT_COUNT,
    ensures
        CalibrationRecord::decoded(
            stored(slots, CalibrationRecord::decoded(slots).narrowing_writes()),
        ) == CalibrationRecord::decoded(slots).narrowed(),
{
    reveal_with_fuel(stored, 3);
}

/// After `finish_attempt` and the write it returns, the backup registers
/// hold the record with the phase `AfterWrite`.
pub proof fn lemma_finish_is_stored(slots: Seq<u32>)
    requires
        slots.len() == SLOT_COUNT,
    ensures
        CalibrationRecord::decoded(
            stored(slots, seq![SlotWrite { slot: Slot::Phase, value: Phase::AfterWrite.code() }]),
        ) == (CalibrationRecord {
            phase: Phase::AfterWrite,
            ..CalibrationRecord::decoded(slots)
        }),
{
    reveal_with_fuel(stored, 2);
}

/// Narrowing never widens the interval and never turns it over.
pub proof fn lemma_narrowing_is_monotonic(record: CalibrationRecord)
    requires
        record.bottom <= record.top,
    ensures
        record.bottom <= record.narrowed().bottom,
        record.narrowed().bottom <= record.narrowed().top,
        record.narrowed().top <= record.top,
        record.bottom <= record.delay() <= record.top,
{
}

/// What the phase means for the delay.  A boot that finds `BeforeWrite`
/// injects a delay no longer than the previous one; a boot that finds
/// `AfterWrite` injects one no shorter; a boot that finds neither searches
/// the interval as it is.
pub proof fn lemma_phase_semantics(record: CalibrationRecord)
    requires
        record.bottom <= record.top,
    ensures
        record.phase == Phase::BeforeWrite ==> record.narrowed().delay() <= record.delay(),
        record.phase == Phase::AfterWrite ==> record.narrowed().delay() >= record.delay(),
        record.phase == Phase::NotStarted ==> record.narrowed().delay() == record.delay()
            && record.narrowed().bottom == record.bottom && record.narrowed().top == record.top,
{
}

/// The phase that an attempt with `delay` leaves behind when `target` is the
/// delay at which the reset falls into the write: a longer delay is reset
/// before its write has returned, a shorter one sees its write return.
pub open spec fn phase_after(delay: u32, target: u32) -> Phase {
    if delay > target {
        Phase::BeforeWrite
    } else {
        Phase::AfterWrite
    }
}

/// The search on `record` is over: its attempt hits the target, or its
/// interval has collapsed.
pub open spec fn settled(record: CalibrationRecord, target: u32) -> bool {
    record.collapsed() || record.delay() == target
}

/// The record after `boots` more boots, each of which attempts the middle of
/// the interval, is reset, and narrows by the phase its attempt left behind.
pub open spec fn searched(record: CalibrationRecord, target: u32, boots: nat) -> CalibrationRecord
    decreases boots,
{
    if boots == 0 {
        record
    } else {
        let before = searched(record, target, (boots - 1) as nat);
        if settled(before, target) {
            before
        } else {
            (CalibrationRecord { phase: phase_after(before.delay(), target), ..before }).narrowed()
        }
    }
}

/// The search never widens its interval and comes to an end.  Each boot's
/// interval lies inside the one before, and while the search is not over the
/// width at least halves, rounded up, with every boot.  So the search is over
/// after `boots` boots as soon as `4 * 2^boots` reaches the width at the
/// start, whatever the target.
pub proof fn lemma_search_converges(record: CalibrationRecord, target: u32, boots: nat)
    ensures
        record.bottom <= searched(record, target, boots).bottom,
        searched(record, target, boots).top <= record.top,
        searched(record, target, boots).bottom <= searched(record, target, boots + 1).bottom,
        searched(record, target, boots + 1).top <= searched(record, target, boots).top,
        settled(searched(record, target, boots), target) || (searched(record, target, boots).top
            - searched(record, target, boots).bottom) * pow2(boots) <= (record.top - record.bottom)
            + pow2(boots) - 1,
        4 * pow2(boots) >= record.top - record.bottom ==> settled(
            searched(record, target, boots),
            target,
        ),
    decreases boots,
{
    let now = searched(record, target, boots);
    lemma_pow2_pos(boots);
    if boots == 0 {
        assert(pow2(0) == 1) by {
            vstd::arithmetic::power2::lemma2_to64();
        }
    } else {
        let before = searched(record, target, (boots - 1) as nat);
        lemma_search_converges(record, target, (boots - 1) as nat);
        lemma_pow2_unfold(boots);
        lemma_pow2_pos((boots - 1) as nat);
        if !settled(before, target) {
            let half = pow2((boots - 1) as nat) as int;
            let wide = before.top - before.bottom;
            let narrow = now.top - now.bottom;
            let start = record.top - record.bottom;
            assert(narrow * (2 * half) <= start + 2 * half - 1) by (nonlinear_arith)
                requires
                    2 * narrow <= wide + 1,
                    wide * half <= start + half - 1,
                    half > 0,
            ;
        }
    }
    if !settled(now, target) {
        let width = now.top - now.bottom;
        let power = pow2(boots) as int;
        assert(5 * power <= width * power) by (nonlinear_arith)
            requires
                5 <= width,
                power > 0,
        ;
    }
}

/// The search brackets its target.  With the target inside the interval at
/// the start, it is inside the interval after every boot, and so is the
/// delay that the boot injects.
pub proof fn lemma_search_brackets(record: CalibrationRecord, target: u32, boots: nat)
    requires
        record.bottom <= target <= record.top,
    ensures
        searched(record, target, boots).bottom <= target <= searched(record, target, boots).top,
        searched(record, target, boots).bottom <= searched(record, target, boots).delay()
            <= searched(record, target, boots).top,
    decreases boots,
{
    if boots > 0 {
        lemma_search_brackets(record, target, (boots - 1) as nat);
    }
}

} // verus!
