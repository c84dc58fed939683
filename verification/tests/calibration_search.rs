use flash_corruptor::calibration::{
    CalibrationRecord, Phase, Slot, SlotWrite, INITIAL_BOTTOM, INITIAL_TOP, MAGIC, SLOT_COUNT,
};
use flash_corruptor::search::{middle, MINIMUM_WIDTH};

fn store(slots: &mut [u32; 5], writes: &[SlotWrite]) {
    for write in writes {
        slots[write.slot.index()] = write.value;
    }
}

fn record(bottom: u32, top: u32, phase: Phase) -> CalibrationRecord {
    CalibrationRecord { magic: MAGIC, bottom, top, phase, reset_count: 0 }
}

/// One boot of the search against a board that corrupts at `target`: narrow,
/// attempt, and leave the phase that the attempt ends in.
fn boot(slots: &mut [u32; 5], target: u32) -> Option<u32> {
    let (mut record, set_up) = CalibrationRecord::load(slots);
    store(slots, &set_up);
    if record.very_similar() {
        return None;
    }
    let attempt = record.begin_attempt();
    store(slots, &attempt.writes);
    if attempt.delay < target {
        let write = record.finish_attempt();
        store(slots, &[write]);
    }
    Some(attempt.delay)
}

#[test]
fn constants_match_the_persisted_layout() {
    assert_eq!(MAGIC, 0x9999_9999);
    assert_eq!(INITIAL_BOTTOM, 1);
    assert_eq!(INITIAL_TOP, 1000);
    assert_eq!(SLOT_COUNT, 5);
    assert_eq!(MINIMUM_WIDTH, 5);
}

#[test]
fn slots_are_numbered_in_field_order() {
    assert_eq!(Slot::Magic.index(), 0);
    assert_eq!(Slot::Bottom.index(), 1);
    assert_eq!(Slot::Top.index(), 2);
    assert_eq!(Slot::Phase.index(), 3);
    assert_eq!(Slot::ResetCount.index(), 4);
}

#[test]
fn phase_codes_round_trip() {
    assert_eq!(Phase::NotStarted.to_code(), 0);
    assert_eq!(Phase::BeforeWrite.to_code(), 1);
    assert_eq!(Phase::AfterWrite.to_code(), 2);
    for phase in [Phase::NotStarted, Phase::BeforeWrite, Phase::AfterWrite] {
        assert_eq!(Phase::from_code(phase.to_code()), phase);
    }
}

#[test]
fn unknown_phase_codes_record_no_attempt() {
    assert_eq!(Phase::from_code(3), Phase::NotStarted);
    assert_eq!(Phase::from_code(0x9999_9999), Phase::NotStarted);
    assert_eq!(Phase::from_code(u32::MAX), Phase::NotStarted);
}

#[test]
fn decode_maps_slots_to_fields() {
    let record = CalibrationRecord::decode(&[10, 20, 30, 2, 50]);
    assert_eq!(
        record,
        CalibrationRecord {
            magic: 10,
            bottom: 20,
            top: 30,
            phase: Phase::AfterWrite,
            reset_count: 50
        }
    );
}

#[test]
fn encode_maps_fields_to_slots() {
    let record = CalibrationRecord {
        magic: MAGIC,
        bottom: 7,
        top: 900,
        phase: Phase::BeforeWrite,
        reset_count: 12,
    };
    assert_eq!(record.encode(), [0x9999_9999, 7, 900, 1, 12]);
    assert_eq!(CalibrationRecord::decode(&record.encode()), record);
}

#[test]
fn first_boot_sets_the_record_up() {
    let mut slots = [0, 77, 3, 2, 41];
    let (record, writes) = CalibrationRecord::load(&slots);
    assert_eq!(
        record,
        CalibrationRecord {
            magic: MAGIC,
            bottom: 1,
            top: 1000,
            phase: Phase::NotStarted,
            reset_count: 41
        }
    );
    assert_eq!(
        writes,
        vec![
            SlotWrite { slot: Slot::Magic, value: 0x9999_9999 },
            SlotWrite { slot: Slot::Bottom, value: 1 },
            SlotWrite { slot: Slot::Top, value: 1000 },
            SlotWrite { slot: Slot::Phase, value: 0 },
        ]
    );
    store(&mut slots, &writes);
    assert_eq!(slots, [0x9999_9999, 1, 1000, 0, 41]);
    assert_eq!(CalibrationRecord::decode(&slots), record);
}

#[test]
fn later_boots_take_the_record_as_stored() {
    let slots = [MAGIC, 250, 500, 1, 9];
    let (record, writes) = CalibrationRecord::load(&slots);
    assert!(writes.is_empty());
    assert_eq!(
        record,
        CalibrationRecord {
            magic: MAGIC,
            bottom: 250,
            top: 500,
            phase: Phase::BeforeWrite,
            reset_count: 9
        }
    );
}

#[test]
fn a_magic_off_by_one_bit_is_a_first_boot() {
    let (record, writes) = CalibrationRecord::load(&[0x9999_9998, 250, 500, 1, 9]);
    assert_eq!(writes.len(), 4);
    assert_eq!((record.bottom, record.top, record.phase), (1, 1000, Phase::NotStarted));
}

#[test]
fn count_boot_adds_one() {
    let mut counted = record(1, 1000, Phase::NotStarted);
    counted.reset_count = 41;
    let write = counted.count_boot();
    assert_eq!(counted.reset_count, 42);
    assert_eq!(write, SlotWrite { slot: Slot::ResetCount, value: 42 });
    assert_eq!((counted.bottom, counted.top, counted.phase), (1, 1000, Phase::NotStarted));
    counted.reset_count = u32::MAX - 1;
    assert_eq!(counted.count_boot().value, u32::MAX);
}

#[test]
fn middle_is_the_floor_of_the_mean() {
    assert_eq!(middle(1, 1000), 500);
    assert_eq!(middle(1, 500), 250);
    assert_eq!(middle(500, 1000), 750);
    assert_eq!(middle(3, 4), 3);
    assert_eq!(middle(0, 0), 0);
    assert_eq!(middle(10, 4), 7);
}

#[test]
fn middle_does_not_overflow() {
    assert_eq!(middle(u32::MAX, u32::MAX), u32::MAX);
    assert_eq!(middle(u32::MAX - 1, u32::MAX), u32::MAX - 1);
    assert_eq!(middle(0, u32::MAX), 0x7FFF_FFFF);
}

#[test]
fn first_boot_computes_middle_500_without_narrowing() {
    let mut slots = [0; 5];
    let (mut record, set_up) = CalibrationRecord::load(&slots);
    store(&mut slots, &set_up);
    assert_eq!((record.bottom, record.top, record.phase), (1, 1000, Phase::NotStarted));
    assert!(!record.very_similar());
    let attempt = record.begin_attempt();
    assert_eq!(attempt.delay, 500);
    assert_eq!((record.bottom, record.top), (1, 1000));
    assert_eq!(record.phase, Phase::BeforeWrite);
    assert_eq!(attempt.writes, vec![SlotWrite { slot: Slot::Phase, value: 1 }]);
    store(&mut slots, &attempt.writes);
    assert_eq!(slots, [MAGIC, 1, 1000, 1, 0]);
}

#[test]
fn second_boot_before_write_narrows_top_to_500_and_computes_250() {
    let mut slots = [MAGIC, 1, 1000, 1, 1];
    let (mut record, set_up) = CalibrationRecord::load(&slots);
    assert!(set_up.is_empty());
    let attempt = record.begin_attempt();
    assert_eq!(record.top, 500);
    assert_eq!(record.bottom, 1);
    assert_eq!(attempt.delay, 250);
    assert_eq!(
        attempt.writes,
        vec![
            SlotWrite { slot: Slot::Top, value: 500 },
            SlotWrite { slot: Slot::Phase, value: 1 },
        ]
    );
    store(&mut slots, &attempt.writes);
    assert_eq!(slots, [MAGIC, 1, 500, 1, 1]);
}

#[test]
fn after_write_narrows_bottom_and_computes_750() {
    let mut slots = [MAGIC, 1, 1000, 2, 1];
    let (mut record, _) = CalibrationRecord::load(&slots);
    let attempt = record.begin_attempt();
    assert_eq!((record.bottom, record.top), (500, 1000));
    assert_eq!(attempt.delay, 750);
    assert_eq!(
        attempt.writes,
        vec![
            SlotWrite { slot: Slot::Bottom, value: 500 },
            SlotWrite { slot: Slot::Phase, value: 1 },
        ]
    );
    store(&mut slots, &attempt.writes);
    assert_eq!(slots, [MAGIC, 500, 1000, 1, 1]);
}

#[test]
fn finish_attempt_marks_the_write_as_returned() {
    let mut marked = record(1, 500, Phase::BeforeWrite);
    let write = marked.finish_attempt();
    assert_eq!(write, SlotWrite { slot: Slot::Phase, value: 2 });
    assert_eq!(marked, record(1, 500, Phase::AfterWrite));
}

#[test]
fn an_interval_of_width_four_is_too_similar() {
    assert!(record(10, 14, Phase::BeforeWrite).very_similar());
    assert!(record(10, 13, Phase::NotStarted).very_similar());
    assert!(record(10, 10, Phase::AfterWrite).very_similar());
    assert!(record(0, 4, Phase::NotStarted).very_similar());
}

#[test]
fn an_interval_of_width_five_is_searched() {
    let mut narrow = record(10, 15, Phase::BeforeWrite);
    assert!(!narrow.very_similar());
    let attempt = narrow.begin_attempt();
    assert_eq!((narrow.bottom, narrow.top), (10, 12));
    assert_eq!(attempt.delay, 11);
    assert!(!record(0, u32::MAX, Phase::NotStarted).very_similar());
}

#[test]
fn an_interval_turned_over_is_too_similar() {
    assert!(record(1000, 1, Phase::NotStarted).very_similar());
    assert!(record(u32::MAX, 0, Phase::NotStarted).very_similar());
}

#[test]
fn before_write_never_raises_the_delay() {
    for (bottom, top) in [(1, 1000), (1, 6), (250, 500), (0, u32::MAX), (7, 12)] {
        let previous = middle(bottom, top);
        let mut narrowed = record(bottom, top, Phase::BeforeWrite);
        let attempt = narrowed.begin_attempt();
        assert!(attempt.delay <= previous);
        assert_eq!(narrowed.top, previous);
        assert_eq!(narrowed.bottom, bottom);
    }
}

#[test]
fn after_write_never_lowers_the_delay() {
    for (bottom, top) in [(1, 1000), (1, 6), (250, 500), (0, u32::MAX), (7, 12)] {
        let previous = middle(bottom, top);
        let mut narrowed = record(bottom, top, Phase::AfterWrite);
        let attempt = narrowed.begin_attempt();
        assert!(attempt.delay >= previous);
        assert_eq!(narrowed.bottom, previous);
        assert_eq!(narrowed.top, top);
    }
}

#[test]
fn the_search_brackets_its_target_and_ends_within_nine_attempts() {
    for target in [1, 2, 137, 499, 500, 501, 743, 999, 1000] {
        let mut slots = [0; 5];
        let mut boots = 0;
        let mut hit = false;
        loop {
            let before = CalibrationRecord::load(&slots).0;
            match boot(&mut slots, target) {
                None => break,
                Some(delay) => {
                    boots += 1;
                    let after = CalibrationRecord::decode(&slots);
                    assert!(before.bottom <= after.bottom && after.top <= before.top);
                    assert!(after.bottom <= target && target <= after.top);
                    assert!(after.bottom <= delay && delay <= after.top);
                    if delay == target {
                        hit = true;
                        break;
                    }
                }
            }
        }
        assert!(boots <= 9, "target {} took {} boots", target, boots);
        let last = CalibrationRecord::decode(&slots);
        assert!(hit || last.top - last.bottom < 5);
    }
}

#[test]
fn the_search_for_137_visits_the_expected_delays() {
    let mut slots = [0; 5];
    let mut delays = Vec::new();
    while let Some(delay) = boot(&mut slots, 137) {
        delays.push(delay);
        if delay == 137 {
            break;
        }
    }
    assert_eq!(delays, vec![500, 250, 125, 187, 156, 140, 132, 136, 138]);
    assert_eq!(CalibrationRecord::decode(&slots).bottom, 136);
    assert_eq!(CalibrationRecord::decode(&slots).top, 140);
}
