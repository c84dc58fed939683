use flash_corruptor::calibration::{Slot, SlotWrite};
use flash_corruptor::fault::{
    FaultRecord, Indicators, Outcome, Reaction, TargetRegion, BANK_OFFSET, ECCR_ADDR, ECCR_BANK,
    ECCR_ECCD, LOWEST_TARGET,
};

fn target() -> TargetRegion {
    TargetRegion::new(0x1_0000, 0x20).unwrap()
}

#[test]
fn register_layout_matches_the_controller() {
    assert_eq!(ECCR_ADDR, 0x0007_FFFF);
    assert_eq!(ECCR_BANK, 1 << 19);
    assert_eq!(ECCR_ECCD, 1 << 31);
    assert_eq!(BANK_OFFSET, 1 << 20);
    assert_eq!(LOWEST_TARGET, 8192);
}

#[test]
fn target_region_keeps_its_bounds() {
    let region = target();
    assert_eq!(region.address(), 0x1_0000);
    assert_eq!(region.length(), 0x20);
    assert_eq!(region.page(), 32);
}

#[test]
fn target_region_must_lie_above_the_firmware() {
    assert!(TargetRegion::new(0, 0x20).is_none());
    assert!(TargetRegion::new(8191, 0x20).is_none());
    assert!(TargetRegion::new(8192, 0x20).is_some());
    assert_eq!(TargetRegion::new(8192, 1).unwrap().page(), 4);
}

#[test]
fn target_region_must_not_be_empty() {
    assert!(TargetRegion::new(0x1_0000, 0).is_none());
    assert!(TargetRegion::new(0x1_0000, 1).is_some());
}

#[test]
fn target_region_must_leave_room_for_its_payload() {
    assert!(TargetRegion::new(0xFFFF_FFF0, 8).is_some());
    assert!(TargetRegion::new(0xFFFF_FFF0, 15).is_some());
    assert!(TargetRegion::new(0xFFFF_FFF0, 16).is_none());
    assert!(TargetRegion::new(0xFFFF_FFF8, 7).is_some());
    assert!(TargetRegion::new(0xFFFF_FFF8, 8).is_none());
    assert!(TargetRegion::new(0xFFFF_FFF9, 1).is_none());
    assert!(TargetRegion::new(0x1_0000, u32::MAX).is_none());
}

#[test]
fn target_region_contains_its_bytes_only() {
    let region = target();
    assert!(!region.contains(0xFFFF));
    assert!(region.contains(0x1_0000));
    assert!(region.contains(0x1_001F));
    assert!(!region.contains(0x1_0020));
    assert!(!region.contains(0));
    assert!(!region.contains(u32::MAX));
}

#[test]
fn payload_is_one_zero_double_word_more_than_fits() {
    assert_eq!(target().payload(), vec![0u64; 5]);
    assert_eq!(TargetRegion::new(0x1_0000, 1).unwrap().payload(), vec![0u64; 1]);
    assert_eq!(TargetRegion::new(0x1_0000, 7).unwrap().payload(), vec![0u64; 1]);
    assert_eq!(TargetRegion::new(0x1_0000, 8).unwrap().payload(), vec![0u64; 2]);
}

#[test]
fn decode_takes_the_register_apart() {
    assert_eq!(
        FaultRecord::decode(0x8001_0008),
        FaultRecord { double_error: true, address: 0x1_0008, bank: false }
    );
    assert_eq!(
        FaultRecord::decode(0x4119_0008),
        FaultRecord { double_error: false, address: 0x1_0008, bank: true }
    );
    assert_eq!(
        FaultRecord::decode(0xFFFF_FFFF),
        FaultRecord { double_error: true, address: 0x7_FFFF, bank: true }
    );
    assert_eq!(
        FaultRecord::decode(0),
        FaultRecord { double_error: false, address: 0, bank: false }
    );
}

#[test]
fn fault_address_puts_the_bank_above_the_address() {
    let first = FaultRecord { double_error: true, address: 0x1_0008, bank: false };
    let second = FaultRecord { double_error: true, address: 0x1_0008, bank: true };
    assert_eq!(first.fault_address(), 0x0001_0008);
    assert_eq!(second.fault_address(), 0x0011_0008);
}

#[test]
fn double_error_inside_the_target_is_success() {
    let region = target();
    for register in [0x8001_0000u32, 0x8001_0008, 0x8001_001F, 0xC101_0010] {
        assert_eq!(FaultRecord::decode(register).classify(&region), Outcome::Success);
    }
}

#[test]
fn double_error_outside_the_target_is_off_target() {
    let region = target();
    for register in [0x8000_FFFFu32, 0x8001_0020, 0x8000_0000, 0x8007_FFFF, 0x8009_0008] {
        assert_eq!(FaultRecord::decode(register).classify(&region), Outcome::OffTarget);
    }
}

#[test]
fn no_double_error_is_unrelated_whatever_the_address() {
    let region = target();
    for register in [0u32, 0x0001_0000, 0x0001_0008, 0x4001_0008, 0x7FFF_FFFF, 0x0009_0008] {
        assert_eq!(FaultRecord::decode(register).classify(&region), Outcome::Unrelated);
    }
}

#[test]
fn success_latches_green_clears_the_magic_and_feeds() {
    assert_eq!(
        Outcome::Success.react(),
        Reaction {
            show: Indicators { green: true, red: false, blue: false },
            write: Some(SlotWrite { slot: Slot::Magic, value: 0 }),
            feed: true,
        }
    );
}

#[test]
fn off_target_shows_red_alone_and_lets_the_search_go_on() {
    assert_eq!(
        Outcome::OffTarget.react(),
        Reaction {
            show: Indicators { green: false, red: true, blue: false },
            write: None,
            feed: false,
        }
    );
}

#[test]
fn unrelated_shows_red_and_blue() {
    assert_eq!(
        Outcome::Unrelated.react(),
        Reaction {
            show: Indicators { green: false, red: true, blue: true },
            write: None,
            feed: false,
        }
    );
}

#[test]
fn panic_shows_red_and_restarts_the_search() {
    assert_eq!(
        Reaction::fatal(),
        Reaction {
            show: Indicators { green: false, red: true, blue: false },
            write: Some(SlotWrite { slot: Slot::Magic, value: 0 }),
            feed: true,
        }
    );
}
