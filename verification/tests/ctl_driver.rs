use arm_generic_timer::ctl::{frame_features, non_secure_bit, with_non_secure_bit};
use arm_generic_timer::{CntAcr, CntCtlBase, Features, GenericTimerCtl};

fn patterned_frame() -> CntCtlBase {
    let mut frame = CntCtlBase::zeroed();
    frame.cntfrq = 19_200_000;
    frame.cntnsar = 0xffff_ff5a;
    frame.cnttidr = 0x0f05_0301;
    for (i, value) in frame.cntacr.iter_mut().enumerate() {
        *value = CntAcr::from_bits_retain(i as u32 + 1);
    }
    for (i, offset) in frame.cntvoff.iter_mut().enumerate() {
        *offset = 0x1_0000_0000 + i as u64;
    }
    frame.reserved_00c[12] = 0x11;
    frame.reserved_060[0] = 0x22;
    frame.reserved_0c0[15] = 0x33;
    frame.impdef_100[447] = 0x44;
    frame.reserved_800[495] = 0x55;
    frame.impdef_fc0[3] = 0x66;
    frame.counter_id[0] = 0x77;
    frame
}

#[test]
fn ctl_new_and_into_regs_keep_the_frame() {
    let frame = patterned_frame();
    let driver = GenericTimerCtl::new(frame.clone());
    assert_eq!(*driver.regs(), frame);
    assert_eq!(driver.into_regs(), frame);
}

#[test]
fn ctl_frequency_round_trip() {
    let frame = patterned_frame();
    let mut driver = GenericTimerCtl::new(frame.clone());
    assert_eq!(driver.frequency(), 19_200_000);
    driver.set_frequency(1_000_000);
    assert_eq!(driver.frequency(), 1_000_000);
    let mut expected = frame;
    expected.cntfrq = 1_000_000;
    assert_eq!(driver.into_regs(), expected);
}

#[test]
fn non_secure_access_reads_one_bit() {
    let driver = GenericTimerCtl::new(patterned_frame());
    let expected = [false, true, false, true, true, false, true, false];
    for (index, granted) in expected.iter().enumerate() {
        assert_eq!(driver.non_secure_access(index), *granted);
        assert_eq!(non_secure_bit(0xffff_ff5a, index), *granted);
    }
}

#[test]
fn set_non_secure_access_changes_one_bit() {
    for index in 0..8usize {
        for enable in [false, true] {
            let frame = patterned_frame();
            let mut driver = GenericTimerCtl::new(frame.clone());
            driver.set_non_secure_access(index, enable);
            assert_eq!(driver.non_secure_access(index), enable);
            for other in 0..8usize {
                if other != index {
                    assert_eq!(
                        driver.non_secure_access(other),
                        frame.cntnsar & (1 << other) != 0
                    );
                }
            }
            let word = if enable {
                frame.cntnsar | (1 << index)
            } else {
                frame.cntnsar & !(1 << index)
            };
            let mut expected = frame;
            expected.cntnsar = word;
            assert_eq!(driver.into_regs(), expected);
        }
    }
}

#[test]
fn with_non_secure_bit_values() {
    assert_eq!(with_non_secure_bit(0, 0, true), 0x01);
    assert_eq!(with_non_secure_bit(0, 7, true), 0x80);
    assert_eq!(with_non_secure_bit(0x80, 7, true), 0x80);
    assert_eq!(with_non_secure_bit(0xff, 3, false), 0xf7);
    assert_eq!(with_non_secure_bit(0xf7, 3, false), 0xf7);
    assert_eq!(with_non_secure_bit(0xdead_be00, 4, true), 0xdead_be10);
    assert_eq!(with_non_secure_bit(0xdead_beef, 0, false), 0xdead_beee);
}

#[test]
fn features_decode_one_byte_of_the_id_register() {
    let driver = GenericTimerCtl::new(patterned_frame());
    assert_eq!(driver.features(0), Features::IMPLEMENTED());
    assert_eq!(driver.features(1), Features::IMPLEMENTED().union(Features::VIRTUAL()));
    assert_eq!(driver.features(2), Features::IMPLEMENTED().union(Features::CNTEL0BASE()));
    assert_eq!(driver.features(3), Features::all());
    assert_eq!(driver.features(3).bits(), 0x07);
    for index in 4..8usize {
        assert_eq!(driver.features(index), Features::empty());
    }
}

#[test]
fn frame_features_values() {
    assert_eq!(frame_features(0, 0), Features::empty());
    assert_eq!(frame_features(0xffff_ffff, 0).bits(), 0x7);
    assert_eq!(frame_features(0xffff_ffff, 3).bits(), 0x7);
    assert_eq!(frame_features(0xffff_ffff, 4).bits(), 0);
    assert_eq!(frame_features(0xffff_ffff, 7).bits(), 0);
    assert_eq!(frame_features(0x0000_0200, 1), Features::VIRTUAL());
    assert_eq!(frame_features(0x0004_0000, 2), Features::CNTEL0BASE());
    assert_eq!(frame_features(0xf800_0000, 3), Features::empty());
    assert!(frame_features(0x0000_0001, 0).contains(Features::IMPLEMENTED()));
    assert!(!frame_features(0x0000_0001, 0).contains(Features::VIRTUAL()));
}

#[test]
fn access_control_round_trip() {
    let frame = patterned_frame();
    let mut driver = GenericTimerCtl::new(frame.clone());
    for index in 0..8usize {
        assert_eq!(driver.access_control(index).bits(), index as u32 + 1);
    }
    let value = CntAcr::RWPT().union(CntAcr::RFRQ());
    driver.set_access_control(7, value);
    driver.set_access_control(0, CntAcr::empty());
    assert_eq!(driver.access_control(7), value);
    assert_eq!(driver.access_control(0), CntAcr::empty());
    assert_eq!(driver.access_control(6).bits(), 7);
    let mut expected = frame;
    expected.cntacr[7] = value;
    expected.cntacr[0] = CntAcr::empty();
    assert_eq!(driver.into_regs(), expected);
}

#[test]
fn ctl_virtual_offset_round_trip() {
    let frame = patterned_frame();
    let mut driver = GenericTimerCtl::new(frame.clone());
    for index in 0..8usize {
        assert_eq!(driver.virtual_offset(index), 0x1_0000_0000 + index as u64);
    }
    driver.set_virtual_offset(3, u64::MAX);
    assert_eq!(driver.virtual_offset(3), u64::MAX);
    assert_eq!(driver.virtual_offset(2), 0x1_0000_0002);
    assert_eq!(driver.virtual_offset(4), 0x1_0000_0004);
    let mut expected = frame;
    expected.cntvoff[3] = u64::MAX;
    assert_eq!(driver.into_regs(), expected);
}
