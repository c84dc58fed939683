use flash_corruptor::boot::{plan_attempt, plan_boot, BootStep, Fatal};
use flash_corruptor::calibration::{CalibrationRecord, Phase, Slot, SlotWrite, MAGIC};
use flash_corruptor::fault::{Indicators, TargetRegion};

fn target() -> TargetRegion {
    TargetRegion::new(0x1_0000, 0x20).unwrap()
}

fn store(slot: Slot, value: u32) -> BootStep {
    BootStep::Persist(SlotWrite { slot, value })
}

fn attempt(delay: u32) -> Vec<BootStep> {
    vec![
        BootStep::Show(Indicators { green: false, red: false, blue: false }),
        BootStep::Scan { address: 0x1_0000, length: 0x20 },
        BootStep::Unlock,
        BootStep::Erase(32),
        BootStep::ArmWatchdog(0),
        BootStep::Delay(delay),
        BootStep::Program { address: 0x1_0000, count: 5 },
        store(Slot::Phase, 2),
        BootStep::Show(Indicators { green: false, red: false, blue: true }),
        BootStep::Idle,
    ]
}

#[test]
fn first_boot_initializes_and_attempts_the_middle() {
    let steps = plan_boot(&[0, 0, 0, 0, 0], &target());
    let mut expected = vec![
        store(Slot::Magic, 0x9999_9999),
        store(Slot::Bottom, 1),
        store(Slot::Top, 1000),
        store(Slot::Phase, 0),
        store(Slot::ResetCount, 1),
        store(Slot::Phase, 1),
    ];
    expected.extend(attempt(500));
    assert_eq!(steps, expected);
}

#[test]
fn second_boot_before_write_narrows_the_top() {
    let steps = plan_boot(&[MAGIC, 1, 1000, 1, 1], &target());
    let mut expected =
        vec![store(Slot::ResetCount, 2), store(Slot::Top, 500), store(Slot::Phase, 1)];
    expected.extend(attempt(250));
    assert_eq!(steps, expected);
}

#[test]
fn boot_after_write_narrows_the_bottom() {
    let steps = plan_boot(&[MAGIC, 1, 1000, 2, 7], &target());
    let mut expected =
        vec![store(Slot::ResetCount, 8), store(Slot::Bottom, 500), store(Slot::Phase, 1)];
    expected.extend(attempt(750));
    assert_eq!(steps, expected);
}

#[test]
fn boot_with_width_four_is_too_similar_and_touches_no_flash() {
    let steps = plan_boot(&[MAGIC, 496, 500, 1, 3], &target());
    assert_eq!(steps, vec![store(Slot::ResetCount, 4), BootStep::Abort(Fatal::TooSimilar)]);
}

#[test]
fn boot_with_width_five_goes_on() {
    let steps = plan_boot(&[MAGIC, 495, 500, 2, 3], &target());
    let mut expected =
        vec![store(Slot::ResetCount, 4), store(Slot::Bottom, 497), store(Slot::Phase, 1)];
    expected.extend(attempt(498));
    assert_eq!(steps, expected);
}

#[test]
fn boot_with_an_exhausted_counter_gives_up_before_counting() {
    let steps = plan_boot(&[MAGIC, 1, 1000, 0, u32::MAX], &target());
    assert_eq!(steps, vec![BootStep::Abort(Fatal::CounterExhausted)]);
    let steps = plan_boot(&[0, 1, 1000, 0, u32::MAX], &target());
    assert_eq!(steps.len(), 5);
    assert_eq!(steps[4], BootStep::Abort(Fatal::CounterExhausted));
}

#[test]
fn the_phase_is_marked_before_the_watchdog_is_armed() {
    for slots in [[0, 0, 0, 0, 0], [MAGIC, 1, 1000, 1, 1], [MAGIC, 1, 1000, 2, 1]] {
        let steps = plan_boot(&slots, &target());
        let position = |wanted: BootStep| steps.iter().position(|step| *step == wanted).unwrap();
        let before = position(store(Slot::Phase, 1));
        let armed = position(BootStep::ArmWatchdog(0));
        let after = position(store(Slot::Phase, 2));
        let erased = position(BootStep::Erase(32));
        let programmed = position(BootStep::Program { address: 0x1_0000, count: 5 });
        assert!(before < erased);
        assert!(erased < armed);
        assert!(armed < programmed);
        assert!(programmed < after);
        for step in &steps[armed + 1..programmed] {
            assert!(matches!(step, BootStep::Delay(_)));
        }
    }
}

#[test]
fn plan_attempt_narrows_the_record() {
    let mut record = CalibrationRecord {
        magic: MAGIC,
        bottom: 1,
        top: 1000,
        phase: Phase::BeforeWrite,
        reset_count: 2,
    };
    let steps = plan_attempt(&mut record, &target());
    assert_eq!((record.bottom, record.top, record.phase), (1, 500, Phase::BeforeWrite));
    let mut expected = vec![store(Slot::Top, 500), store(Slot::Phase, 1)];
    expected.extend(attempt(250));
    assert_eq!(steps, expected);
}
