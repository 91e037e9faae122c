use arm_generic_timer::control::frequency_of_slot;
use arm_generic_timer::ctl::{frame_features, non_secure_bit, with_non_secure_bit};
use arm_generic_timer::timer::{armed, deadline, expired, masked, polling};
use arm_generic_timer::{CntCr, Features, TimerControl};
use safe_mmio::fields::{ReadPure, ReadPureWrite};
use safe_mmio::UniqueMmioPointer;

#[test]
fn control_register_read_modify_write_over_volatile_memory() {
    let mut fake = [ReadPureWrite(0xa5a5_0002u32)];
    let mut regs = UniqueMmioPointer::from(&mut fake);

    let mut cntcr = CntCr::from_bits_retain(regs.get(0).unwrap().read());
    cntcr.set(CntCr::EN(), true);
    cntcr.set_fcreq(3);
    regs.get(0).unwrap().write(cntcr.bits());

    assert_eq!(regs.get(0).unwrap().read(), 0xa5a4_0303);
}

#[test]
fn non_secure_bits_over_volatile_memory() {
    let mut fake = [ReadPureWrite(0xffff_ff5au32)];
    let mut regs = UniqueMmioPointer::from(&mut fake);

    let cntnsar = regs.get(0).unwrap().read();
    assert!(!non_secure_bit(cntnsar, 0));
    regs.get(0).unwrap().write(with_non_secure_bit(cntnsar, 0, true));
    let cntnsar = regs.get(0).unwrap().read();
    assert_eq!(cntnsar, 0xffff_ff5b);
    assert!(non_secure_bit(cntnsar, 0));

    regs.get(0).unwrap().write(with_non_secure_bit(cntnsar, 6, false));
    assert_eq!(regs.get(0).unwrap().read(), 0xffff_ff1b);
}

#[test]
fn read_only_registers_over_volatile_memory() {
    let mut fake = [ReadPure(0x0f05_0301u32), ReadPure(0), ReadPure(24_000_000)];
    let mut regs = UniqueMmioPointer::from(&mut fake);

    let cnttidr = regs.get(0).unwrap().read();
    assert_eq!(frame_features(cnttidr, 1), Features::IMPLEMENTED().union(Features::VIRTUAL()));
    assert_eq!(frame_features(cnttidr, 5), Features::empty());
    assert_eq!(frequency_of_slot(regs.get(1).unwrap().read()), None);
    assert_eq!(frequency_of_slot(regs.get(2).unwrap().read()), Some(24_000_000));
}

#[test]
fn polling_wait_over_volatile_memory() {
    let mut compare = [ReadPureWrite(1_000u64)];
    let mut control = [ReadPureWrite(0u32)];
    let mut cval = UniqueMmioPointer::from(&mut compare);
    let mut ctl = UniqueMmioPointer::from(&mut control);

    let value = cval.get(0).unwrap().read();
    let value = deadline(value, 1_000_000, 500_000).unwrap();
    cval.get(0).unwrap().write(value);
    ctl.get(0).unwrap().write(polling().bits());
    assert_eq!(cval.get(0).unwrap().read(), 501_000);

    let mut polls = 0;
    while !expired(TimerControl::from_bits_retain(ctl.get(0).unwrap().read())) {
        polls += 1;
        assert!(polls < 10);
        if polls == 3 {
            // The peripheral reports that the count has reached the compare value.
            let word = ctl.get(0).unwrap().read();
            ctl.get(0).unwrap().write(word | TimerControl::ISTATUS().bits());
        }
    }
    assert_eq!(polls, 3);
    assert_eq!(ctl.get(0).unwrap().read(), 0x7);
}

#[test]
fn cancel_over_volatile_memory() {
    let mut control = [ReadPureWrite(0u32)];
    let mut ctl = UniqueMmioPointer::from(&mut control);

    ctl.get(0).unwrap().write(armed().bits());
    let word = TimerControl::from_bits_retain(ctl.get(0).unwrap().read());
    ctl.get(0).unwrap().write(masked(word).bits());
    assert_eq!(ctl.get(0).unwrap().read(), 0x3);
}
