use arm_generic_timer::control::frequency_of_slot;
use arm_generic_timer::{CntControlBase, CntCr, CntId, CntSr, GenericTimerControl};

fn patterned_frame() -> CntControlBase {
    let mut frame = CntControlBase::zeroed();
    frame.cntcr = CntCr::from_bits_retain(0xa5a5_0002);
    frame.cntsr = CntSr::from_bits_retain(0x0000_1102);
    frame.cntcv = 0x0123_4567_89ab_cdef;
    frame.cntscr = 77;
    frame.cntid = CntId::from_bits_retain(0xf1);
    for (i, slot) in frame.cntfid.iter_mut().enumerate() {
        *slot = 1000 + i as u32;
    }
    frame.reserved_14 = [0x11, 0x22];
    frame.impdef_0c0[3] = 0x33;
    frame.reserved_100[947] = 0x44;
    frame.counter_id[11] = 0x55;
    frame
}

#[test]
fn control_frame_scenario() {
    let mut frame = CntControlBase::zeroed();
    frame.cntid = CntId::from_bits_retain(0b0001);
    let driver = GenericTimerControl::new(frame);
    assert!(driver.scaling_implemented());
    assert_eq!(driver.base_frequency(), 0);
    assert_eq!(driver.frequency_mode(0), None);
}

#[test]
fn new_and_into_regs_keep_the_frame() {
    let frame = patterned_frame();
    let driver = GenericTimerControl::new(frame.clone());
    assert_eq!(*driver.regs(), frame);
    assert_eq!(driver.into_regs(), frame);
}

#[test]
fn set_enable_changes_only_the_enable_bit() {
    let frame = patterned_frame();
    let mut driver = GenericTimerControl::new(frame.clone());

    driver.set_enable(true);
    let mut expected = frame.clone();
    expected.cntcr = CntCr::from_bits_retain(0xa5a5_0003);
    assert_eq!(*driver.regs(), expected);

    driver.set_enable(true);
    assert_eq!(*driver.regs(), expected);

    driver.set_enable(false);
    assert_eq!(*driver.regs(), frame);

    driver.set_enable(false);
    assert_eq!(*driver.regs(), frame);
}

#[test]
fn request_frequency_writes_the_request_field() {
    let frame = patterned_frame();
    let mut driver = GenericTimerControl::new(frame.clone());
    driver.request_frequency(3);
    let mut expected = frame.clone();
    expected.cntcr = CntCr::from_bits_retain(0xa5a4_0302);
    assert_eq!(*driver.regs(), expected);
    assert_eq!(driver.regs().cntcr.fcreq(), 3);

    driver.request_frequency(1023);
    assert_eq!(driver.regs().cntcr.bits(), 0xa5a7_ff02);
    driver.request_frequency(1024);
    assert_eq!(driver.regs().cntcr.bits(), 0xa5a4_0002);
}

#[test]
fn frequency_index_reads_the_acknowledge_field() {
    let driver = GenericTimerControl::new(patterned_frame());
    assert_eq!(driver.frequency_index(), 0x11);

    let mut frame = CntControlBase::zeroed();
    frame.cntsr = CntSr::from_bits_retain(0x0003_ff00);
    assert_eq!(GenericTimerControl::new(frame).frequency_index(), 1023);
}

#[test]
fn count_round_trip() {
    let frame = patterned_frame();
    let mut driver = GenericTimerControl::new(frame.clone());
    assert_eq!(driver.count(), 0x0123_4567_89ab_cdef);
    driver.set_count(u64::MAX);
    assert_eq!(driver.count(), u64::MAX);
    let mut expected = frame;
    expected.cntcv = u64::MAX;
    assert_eq!(driver.into_regs(), expected);
}

#[test]
fn scaling_implemented_reads_the_id_register() {
    let driver = GenericTimerControl::new(patterned_frame());
    assert!(driver.scaling_implemented());
    let mut frame = CntControlBase::zeroed();
    frame.cntid = CntId::from_bits_retain(0b0010);
    assert!(!GenericTimerControl::new(frame).scaling_implemented());
    assert!(!GenericTimerControl::new(CntControlBase::zeroed()).scaling_implemented());
}

#[test]
fn enable_scaling_then_scale() {
    for scale in [0u32, 1, 77, 0x8000_0000, u32::MAX] {
        let frame = patterned_frame();
        let mut driver = GenericTimerControl::new(frame.clone());
        driver.enable_scaling(scale);
        assert_eq!(driver.scale(), scale);
        let mut expected = frame;
        expected.cntscr = scale;
        expected.cntcr = CntCr::from_bits_retain(0xa5a5_0006);
        assert_eq!(*driver.regs(), expected);
    }
}

#[test]
fn disable_scaling_then_scale() {
    let frame = patterned_frame();
    let mut driver = GenericTimerControl::new(frame.clone());
    assert_eq!(driver.scale(), 77);
    driver.enable_scaling(5);
    driver.disable_scaling();
    assert_eq!(driver.scale(), 0);
    assert!(!driver.regs().cntcr.contains(CntCr::SCEN()));
    let mut expected = frame;
    expected.cntscr = 0;
    assert_eq!(*driver.regs(), expected);

    driver.disable_scaling();
    assert_eq!(driver.scale(), 0);
    assert_eq!(*driver.regs(), expected);
}

#[test]
fn base_frequency_is_slot_zero() {
    let driver = GenericTimerControl::new(patterned_frame());
    assert_eq!(driver.base_frequency(), 1000);
}

#[test]
fn frequency_mode_absent_iff_slot_is_zero() {
    let mut frame = patterned_frame();
    frame.cntfid[0] = 0;
    frame.cntfid[1] = 1;
    frame.cntfid[2] = u32::MAX;
    frame.cntfid[39] = 0;
    let driver = GenericTimerControl::new(frame);
    assert_eq!(driver.frequency_mode(0), None);
    assert_eq!(driver.frequency_mode(1), Some(1));
    assert_eq!(driver.frequency_mode(2), Some(u32::MAX));
    assert_eq!(driver.frequency_mode(3), Some(1003));
    assert_eq!(driver.frequency_mode(38), Some(1038));
    assert_eq!(driver.frequency_mode(39), None);
}

#[test]
fn frequency_of_slot_values() {
    assert_eq!(frequency_of_slot(0), None);
    assert_eq!(frequency_of_slot(1), Some(1));
    assert_eq!(frequency_of_slot(24_000_000), Some(24_000_000));
    assert_eq!(frequency_of_slot(u32::MAX), Some(u32::MAX));
}

#[test]
fn set_frequency_mode_writes_one_slot() {
    let frame = patterned_frame();
    let mut driver = GenericTimerControl::new(frame.clone());
    driver.set_frequency_mode(39, 24_000_000);
    driver.set_frequency_mode(0, 0);
    assert_eq!(driver.frequency_mode(39), Some(24_000_000));
    assert_eq!(driver.frequency_mode(0), None);
    assert_eq!(driver.base_frequency(), 0);
    let mut expected = frame;
    expected.cntfid[39] = 24_000_000;
    expected.cntfid[0] = 0;
    assert_eq!(driver.into_regs(), expected);
}
