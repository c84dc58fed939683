//! What one boot does, in order.
//!
//! A boot is a straight line: load the calibration record, count the boot,
//! narrow the search, record that an attempt is about to be made, and only
//! then erase the target page, arm the watchdog, spend the delay, and write.
//! The plan is computed from what the backup registers held at boot; carrying
//! it out is left to the caller.

use vstd::prelude::*;
use crate::calibration::{CalibrationRecord, Phase, Slot, SlotWrite, MAGIC};
use crate::fault::{Indicators, TargetRegion};
use crate::registers::PAGE_SIZE;

verus! {

/// Why a boot gives up before it has touched the flash.
#[derive(Debug, Clone, Copy, PartialEq, Eq, Structural)]
pub enum Fatal {
    /// The boot counter cannot count any further.
    CounterExhausted,
    /// The search interval has collapsed: the search has missed its target.
    TooSimilar,
}

/// One thing a boot does.
#[derive(Debug, Clone, Copy, PartialEq, Eq, Structural)]
pub enum BootStep {
    /// Store a value in a backup register.
    Persist(SlotWrite),
    /// Drive the three indicator lines to these levels.
    Show(Indicators),
    /// Read every byte of the region.  A region that is corrupted already
    /// answers with a fault, and the boot ends in the fault handler.
    Scan { address: u32, length: u32 },
    /// Unlock the flash controller.
    Unlock,
    /// Erase a page.
    Erase(u32),
    /// Arm the watchdog with a timeout of that many milliseconds.
    ArmWatchdog(u32),
    /// Spend that many rounds of the delay loop.
    Delay(u32),
    /// Program that many zero double words from the address upwards.
    Program { address: u32, count: u32 },
    /// Wait for the watchdog to reset the board.
    Idle,
    /// Give up: the boot ends in the panic handler.
    Abort(Fatal),
}

/// The timeout of the watchdog in milliseconds: the shortest there is, so
/// that the reset falls into the write that follows the delay.
pub const WATCHDOG_TIMEOUT: u32 = 0;

/// All three indicator lines off.
pub open spec fn dark() -> Indicators {
    Indicators { green: false, red: false, blue: false }
}

/// The in-progress line alone: the write has returned.
pub open spec fn written() -> Indicators {
    Indicators { green: false, red: false, blue: true }
}

/// The steps that store `writes` in order.
pub open spec fn persisting(writes: Seq<SlotWrite>) -> Seq<BootStep> {
    Seq::new(writes.len(), |i: int| BootStep::Persist(writes[i]))
}

/// What a boot does after the narrowing writes: the attempt itself.
pub open spec fn attempt_tail(delay: u32, target: TargetRegion) -> Seq<BootStep> {
    seq![
        BootStep::Show(dark()),
        BootStep::Scan { address: target.start(), length: target.size() },
        BootStep::Unlock,
        BootStep::Erase(target.start() / PAGE_SIZE),
        BootStep::ArmWatchdog(WATCHDOG_TIMEOUT),
        BootStep::Delay(delay),
        BootStep::Program { address: target.start(), count: (target.size() / 8 + 1) as u32 },
        BootStep::Persist(SlotWrite { slot: Slot::Phase, value: Phase::AfterWrite.code() }),
        BootStep::Show(written()),
        BootStep::Idle,
    ]
}

/// An attempt on `target` from a record whose interval has not collapsed:
/// the narrowing is stored first, and the delay is the middle of the narrowed
/// interval.
pub open spec fn attempt_steps(record: CalibrationRecord, target: TargetRegion) -> Seq<BootStep> {
    persisting(record.narrowing_writes()) + attempt_tail(record.narrowed().delay(), target)
}

/// The record that a boot works with once it has loaded it: the initial one
/// on the first boot, the stored one otherwise.
pub open spec fn loaded(slots: Seq<u32>) -> CalibrationRecord {
    if slots[0] != MAGIC {
        CalibrationRecord::initial(slots[4])
    } else {
        CalibrationRecord::decoded(slots)
    }
}

/// The writes that set the record up, on the first boot only.
pub open spec fn set_up_steps(slots: Seq<u32>) -> Seq<BootStep> {
    if slots[0] != MAGIC {
        persisting(CalibrationRecord::set_up())
    } else {
        Seq::empty()
    }
}

/// The loaded record with this boot counted.
pub open spec fn counted(slots: Seq<u32>) -> CalibrationRecord {
    CalibrationRecord {
        reset_count: (loaded(slots).reset_count + 1) as u32,
        ..loaded(slots)
    }
}

/// Everything a boot does, given what the backup registers held.
pub open spec fn boot_steps(slots: Seq<u32>, target: TargetRegion) -> Seq<BootStep> {
    if loaded(slots).reset_count == u32::MAX {
        set_up_steps(slots) + seq![BootStep::Abort(Fatal::CounterExhausted)]
    } else {
        let count = BootStep::Persist(
            SlotWrite { slot: Slot::ResetCount, value: counted(slots).reset_count },
        );
        if counted(slots).collapsed() {
            set_up_steps(slots) + seq![count, BootStep::Abort(Fatal::TooSimilar)]
        } else {
            set_up_steps(slots) + seq![count] + attempt_steps(counted(slots), target)
        }
    }
}

/// Appends the steps that store `writes`.
fn push_writes(steps: &mut Vec<BootStep>, writes: &Vec<SlotWrite>)
    ensures
        final(steps)@ == old(steps)@ + persisting(writes@),
{
    let mut index: usize = 0;
    while index < writes.len()
        invariant
            index <= writes@.len(),
            steps@ == old(steps)@ + persisting(writes@.take(index as int)),
        decreases writes@.len() - index,
    {
        steps.push(BootStep::Persist(writes[index]));
        index = index + 1;
    }
}

/// Plans an attempt: narrows the record by the phase that the previous boot
/// left, and lists what the boot does from there.
pub fn plan_attempt(record: &mut CalibrationRecord, target: &TargetRegion) -> (steps: Vec<
    BootStep,
>)
    requires
        !old(record).collapsed(),
    ensures
        *final(record) == old(record).narrowed(),
        steps@ == attempt_steps(*old(record), *target),
{
    let attempt = record.begin_attempt();
    let mut steps: Vec<BootStep> = Vec::new();
    push_writes(&mut steps, &attempt.writes);
    steps.push(BootStep::Show(Indicators { green: false, red: false, blue: false }));
    steps.push(BootStep::Scan { address: target.address(), length: target.length() });
    steps.push(BootStep::Unlock);
    steps.push(BootStep::Erase(target.page()));
    steps.push(BootStep::ArmWatchdog(WATCHDOG_TIMEOUT));
    steps.push(BootStep::Delay(attempt.delay));
    steps.push(BootStep::Program { address: target.address(), count: target.length() / 8 + 1 });
    steps.push(
        BootStep::Persist(SlotWrite { slot: Slot::Phase, value: Phase::AfterWrite.to_code() }),
    );
    steps.push(BootStep::Show(Indicators { green: false, red: false, blue: true }));
    steps.push(BootStep::Idle);
    steps
}

/// Plans a boot from what the backup registers held.  A boot whose counter
/// is exhausted or whose interval has collapsed stores what it has to and
/// then gives up, before anything else is touched.
pub fn plan_boot(slots: &[u32; 5], target: &TargetRegion) -> (steps: Vec<BootStep>)
    ensures
        steps@ == boot_steps(slots@, *target),
{
    let (mut record, set_up) = CalibrationRecord::load(slots);
    let mut steps: Vec<BootStep> = Vec::new();
    push_writes(&mut steps, &set_up);
    assert(steps@ =~= set_up_steps(slots@));
    if record.reset_count == u32::MAX {
        steps.push(BootStep::Abort(Fatal::CounterExhausted));
        return steps;
    }
    let count = record.count_boot();
    steps.push(BootStep::Persist(count));
    if record.very_similar() {
        steps.push(BootStep::Abort(Fatal::TooSimilar));
        return steps;
    }
    let mut attempt = plan_attempt(&mut record, target);
    steps.append(&mut attempt);
    steps
}

/// The order of an attempt.  Every write that records the decision of this
/// boot, the phase `BeforeWrite` last among them, comes before the watchdog
/// is armed; the page is erased before it is armed; after it come only the
/// delay and the programming; and the phase `AfterWrite` is stored only
/// after the programming.
pub proof fn lemma_attempt_order(record: CalibrationRecord, target: TargetRegion)
    ensures
        ({
            let steps = attempt_steps(record, target);
            let marked = record.narrowing_writes().len() as int;
            &&& steps.len() == marked + 10
            &&& forall|i: int| 0 <= i < marked ==> #[trigger] steps[i] is Persist
            &&& steps[marked - 1] == BootStep::Persist(
                SlotWrite { slot: Slot::Phase, value: Phase::BeforeWrite.code() },
            )
            &&& steps[marked + 2] == BootStep::Unlock
            &&& steps[marked + 3] is Erase
            &&& steps[marked + 4] == BootStep::ArmWatchdog(WATCHDOG_TIMEOUT)
            &&& steps[marked + 5] == BootStep::Delay(record.narrowed().delay())
            &&& steps[marked + 6] is Program
            &&& steps[marked + 7] == BootStep::Persist(
                SlotWrite { slot: Slot::Phase, value: Phase::AfterWrite.code() },
            )
        }),
{
}

/// A boot that gives up touches no flash: where the counter is exhausted or
/// the interval has collapsed, the plan holds nothing but stores to the
/// backup registers and ends with the step that gives up.
pub proof fn lemma_fatal_boot_touches_no_flash(slots: Seq<u32>, target: TargetRegion)
    requires
        loaded(slots).reset_count == u32::MAX || counted(slots).collapsed(),
    ensures
        boot_steps(slots, target).last() is Abort,
        forall|i: int|
            0 <= i < boot_steps(slots, target).len() - 1 ==> #[trigger] boot_steps(
                slots,
                target,
            )[i] is Persist,
        loaded(slots).reset_count < u32::MAX ==> boot_steps(slots, target).last()
            == BootStep::Abort(Fatal::TooSimilar),
{
}

} // verus!
