//! The calibration record that survives a reset: where its fields live in the
//! backup registers, and how a boot finds out that it is the first one.

use vstd::prelude::*;

verus! {

/// The value of the magic slot once the record has been set up.
pub const MAGIC: u32 = 0x9999_9999;

/// Lower bound of the search interval on the first boot.
pub const INITIAL_BOTTOM: u32 = 1;

/// Upper bound of the search interval on the first boot.
pub const INITIAL_TOP: u32 = 1000;

/// Number of backup registers the record occupies.
pub const SLOT_COUNT: usize = 5;

/// How far the previous boot got.
#[derive(Debug, Clone, Copy, PartialEq, Eq, Structural)]
pub enum Phase {
    /// No attempt has been made yet.
    NotStarted,
    /// The previous boot was about to write and never recorded the end of the
    /// write.
    BeforeWrite,
    /// The write of the previous boot returned before the reset.
    AfterWrite,
}

impl Phase {
    /// The value that stands for the phase in its slot.
    pub open spec fn code(self) -> u32 {
        match self {
            Phase::NotStarted => 0,
            Phase::BeforeWrite => 1,
            Phase::AfterWrite => 2,
        }
    }

    /// The phase a slot value stands for.  Only 1 and 2 record an attempt.
    pub open spec fn of_code(code: u32) -> Phase {
        if code == 1 {
            Phase::BeforeWrite
        } else if code == 2 {
            Phase::AfterWrite
        } else {
            Phase::NotStarted
        }
    }

    /// Computes the value that stands for the phase.
    pub fn to_code(self) -> (code: u32)
        ensures
            code == self.code(),
    {
        match self {
            Phase::NotStarted => 0,
            Phase::BeforeWrite => 1,
            Phase::AfterWrite => 2,
        }
    }

    /// Reads a phase from its slot value.
    pub fn from_code(code: u32) -> (phase: Phase)
        ensures
            phase == Phase::of_code(code),
    {
        if code == 1 {
            Phase::BeforeWrite
        } else if code == 2 {
            Phase::AfterWrite
        } else {
            Phase::NotStarted
        }
    }
}

/// The fields of the record, each in a backup register of its own.
#[derive(Debug, Clone, Copy, PartialEq, Eq, Structural)]
pub enum Slot {
    /// Tells a record that has been set up from whatever a first boot finds.
    Magic,
    /// Lower bound of the search interval.
    Bottom,
    /// Upper bound of the search interval.
    Top,
    /// How far the previous boot got.
    Phase,
    /// Number of boots so far.
    ResetCount,
}

impl Slot {
    /// The number of the backup register that holds the field.
    pub open spec fn position(self) -> int {
        match self {
            Slot::Magic => 0,
            Slot::Bottom => 1,
            Slot::Top => 2,
            Slot::Phase => 3,
            Slot::ResetCount => 4,
        }
    }

    /// Computes the number of the backup register that holds the field.
    pub fn index(self) -> (index: usize)
        ensures
            index == self.position(),
            index < SLOT_COUNT,
    {
        match self {
            Slot::Magic => 0,
            Slot::Bottom => 1,
            Slot::Top => 2,
            Slot::Phase => 3,
            Slot::ResetCount => 4,
        }
    }
}

/// A value to be stored in a backup register.
#[derive(Debug, Clone, Copy, PartialEq, Eq, Structural)]
pub struct SlotWrite {
    /// The field to store.
    pub slot: Slot,
    /// The value of its backup register.
    pub value: u32,
}

/// What the backup registers hold after `writes` have been stored in order.
pub open spec fn stored(slots: Seq<u32>, writes: Seq<SlotWrite>) -> Seq<u32>
    decreases writes.len(),
{
    if writes.len() == 0 {
        slots
    } else {
        stored(slots.update(writes[0].slot.position(), writes[0].value), writes.drop_first())
    }
}

/// The state of the search that survives a reset.
#[derive(Debug, Clone, Copy, PartialEq, Eq, Structural)]
pub struct CalibrationRecord {
    /// `MAGIC` once the record has been set up.
    pub magic: u32,
    /// Lower bound of the search interval, in units of injected delay.
    pub bottom: u32,
    /// Upper bound of the search interval.
    pub top: u32,
    /// How far the previous boot got.
    pub phase: Phase,
    /// Number of boots so far; kept for diagnosis only.
    pub reset_count: u32,
}

impl CalibrationRecord {
    /// The record a first boot sets up.  The boot counter is not part of the
    /// set-up and keeps what its slot held.
    pub open spec fn initial(reset_count: u32) -> CalibrationRecord {
        CalibrationRecord {
            magic: MAGIC,
            bottom: INITIAL_BOTTOM,
            top: INITIAL_TOP,
            phase: Phase::NotStarted,
            reset_count,
        }
    }

    /// The record that the backup registers hold.
    pub open spec fn decoded(slots: Seq<u32>) -> CalibrationRecord
        recommends
            slots.len() == SLOT_COUNT,
    {
        CalibrationRecord {
            magic: slots[Slot::Magic.position()],
            bottom: slots[Slot::Bottom.position()],
            top: slots[Slot::Top.position()],
            phase: Phase::of_code(slots[Slot::Phase.position()]),
            reset_count: slots[Slot::ResetCount.position()],
        }
    }

    /// The backup registers that hold this record.
    pub open spec fn encoded(self) -> Seq<u32> {
        seq![self.magic, self.bottom, self.top, self.phase.code(), self.reset_count]
    }

    /// The record has been set up and its interval has a bottom and a top.
    pub open spec fn wf(self) -> bool {
        self.magic == MAGIC && self.bottom <= self.top
    }

    /// What a first boot writes: the magic value, the initial interval, and
    /// the phase of a search that has not started.
    pub open spec fn set_up() -> Seq<SlotWrite> {
        seq![
            SlotWrite { slot: Slot::Magic, value: MAGIC },
            SlotWrite { slot: Slot::Bottom, value: INITIAL_BOTTOM },
            SlotWrite { slot: Slot::Top, value: INITIAL_TOP },
            SlotWrite { slot: Slot::Phase, value: Phase::NotStarted.code() },
        ]
    }

    /// Reads the record out of the backup registers.
    pub fn decode(slots: &[u32; 5]) -> (record: CalibrationRecord)
        ensures
            record == CalibrationRecord::decoded(slots@),
    {
        CalibrationRecord {
            magic: slots[0],
            bottom: slots[1],
            top: slots[2],
            phase: Phase::from_code(slots[3]),
            reset_count: slots[4],
        }
    }

    /// The values of the five backup registers for this record.
    pub fn encode(&self) -> (slots: [u32; 5])
        ensures
            slots@ == self.encoded(),
    {
        let slots: [u32; 5] = [
            self.magic,
            self.bottom,
            self.top,
            self.phase.to_code(),
            self.reset_count,
        ];
        slots
    }

    /// Loads the record at boot.  Where the magic slot does not hold `MAGIC`
    /// this is the first boot: the record is the initial one, and the writes
    /// that set it up are returned.  Otherwise the record is the stored one
    /// and nothing is to be written.
    pub fn load(slots: &[u32; 5]) -> (loaded: (CalibrationRecord, Vec<SlotWrite>))
        ensures
            slots@[0] != MAGIC ==> loaded.0 == CalibrationRecord::initial(slots@[4]) && loaded.1@
                == CalibrationRecord::set_up(),
            slots@[0] == MAGIC ==> loaded.0 == CalibrationRecord::decoded(slots@) && loaded.1@
                == Seq::<SlotWrite>::empty(),
    {
        let mut writes: Vec<SlotWrite> = Vec::new();
        if slots[0] != MAGIC {
            writes.push(SlotWrite { slot: Slot::Magic, value: MAGIC });
            writes.push(SlotWrite { slot: Slot::Bottom, value: INITIAL_BOTTOM });
            writes.push(SlotWrite { slot: Slot::Top, value: INITIAL_TOP });
            writes.push(SlotWrite { slot: Slot::Phase, value: Phase::NotStarted.to_code() });
            let record = CalibrationRecord {
                magic: MAGIC,
                bottom: INITIAL_BOTTOM,
                top: INITIAL_TOP,
                phase: Phase::NotStarted,
                reset_count: slots[4],
            };
            (record, writes)
        } else {
            (CalibrationRecord::decode(slots), writes)
        }
    }

    /// Counts this boot, and returns the write that stores the new count.
    /// The counter must have room for one boot more.
    pub fn count_boot(&mut self) -> (write: SlotWrite)
        requires
            old(self).reset_count < u32::MAX,
        ensures
            *final(self) == (CalibrationRecord {
                reset_count: (old(self).reset_count + 1) as u32,
                ..*old(self)
            }),
            write == (SlotWrite { slot: Slot::ResetCount, value: final(self).reset_count }),
    {
        self.reset_count = self.reset_count + 1;
        SlotWrite { slot: Slot::ResetCount, value: self.reset_count }
    }
}

/// A phase comes back from its slot as it went in.
pub proof fn lemma_phase_round_trip(phase: Phase)
    ensures
        Phase::of_code(phase.code()) == phase,
{
}

/// A record comes back from the backup registers as it went in.
pub proof fn lemma_record_round_trip(record: CalibrationRecord)
    ensures
        record.encoded().len() == SLOT_COUNT,
        CalibrationRecord::decoded(record.encoded()) == record,
{
}

/// After `load` and the writes it returns, the backup registers hold the
/// record it returns: a set-up record with a well-formed interval on the
/// first boot, the untouched registers otherwise.
pub proof fn lemma_load_is_stored(slots: Seq<u32>)
    requires
        slots.len() == SLOT_COUNT,
    ensures
        slots[0] != MAGIC ==> CalibrationRecord::decoded(
            stored(slots, CalibrationRecord::set_up()),
        ) == CalibrationRecord::initial(slots[4]),
        CalibrationRecord::initial(slots[4]).wf(),
        stored(slots, Seq::<SlotWrite>::empty()) == slots,
{
    reveal_with_fuel(stored, 5);
}

/// After `count_boot` and the write it returns, the backup registers hold
/// the record with one boot more.
pub proof fn lemma_count_is_stored(slots: Seq<u32>)
    requires
        slots.len() == SLOT_COUNT,
        slots[4] < u32::MAX,
    ensures
        CalibrationRecord::decoded(
            stored(slots, seq![SlotWrite { slot: Slot::ResetCount, value: (slots[4] + 1) as u32 }]),
        ) == (CalibrationRecord {
            reset_count: (slots[4] + 1) as u32,
            ..CalibrationRecord::decoded(slots)
        }),
{
    reveal_with_fuel(stored, 2);
}

} // verus!
