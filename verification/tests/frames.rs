use arm_generic_timer::{
    CntBase, CntControlBase, CntCtlBase, CntEl0Base, CntReadBase, TimerRegs,
};

#[test]
fn sizes() {
    assert_eq!(0x1000, core::mem::size_of::<CntControlBase>());
    assert_eq!(0x1000, core::mem::size_of::<CntReadBase>());
    assert_eq!(0x1000, core::mem::size_of::<CntCtlBase>());
    assert_eq!(0x1000, core::mem::size_of::<CntBase>());
    assert_eq!(0x1000, core::mem::size_of::<CntEl0Base>());
}

#[test]
fn timer_registers_take_sixteen_bytes() {
    assert_eq!(16, core::mem::size_of::<TimerRegs>());
}

#[test]
fn table_lengths() {
    assert_eq!(arm_generic_timer::layout::FREQUENCY_MODES, 40);
    assert_eq!(arm_generic_timer::layout::TIMER_FRAMES, 8);
    let control = CntControlBase::zeroed();
    assert_eq!(control.cntfid.len(), arm_generic_timer::layout::FREQUENCY_MODES);
    let ctl = CntCtlBase::zeroed();
    assert_eq!(ctl.cntacr.len(), arm_generic_timer::layout::TIMER_FRAMES);
    assert_eq!(ctl.cntvoff.len(), arm_generic_timer::layout::TIMER_FRAMES);
}

#[test]
fn zeroed_control_frame() {
    let frame = CntControlBase::zeroed();
    assert_eq!(frame.cntcr.bits(), 0);
    assert_eq!(frame.cntsr.bits(), 0);
    assert_eq!(frame.cntcv, 0);
    assert_eq!(frame.cntscr, 0);
    assert_eq!(frame.cntid.bits(), 0);
    assert!(frame.reserved_14.iter().all(|word| *word == 0));
    assert!(frame.cntfid.iter().all(|word| *word == 0));
    assert!(frame.impdef_0c0.iter().all(|word| *word == 0));
    assert!(frame.reserved_100.iter().all(|word| *word == 0));
    assert!(frame.counter_id.iter().all(|word| *word == 0));
}

#[test]
fn zeroed_read_frame() {
    let frame = CntReadBase::zeroed();
    assert_eq!(frame.cntcv, 0);
    assert!(frame.reserved_8.iter().all(|word| *word == 0));
    assert!(frame.counter_id.iter().all(|word| *word == 0));
}

#[test]
fn zeroed_ctl_frame() {
    let frame = CntCtlBase::zeroed();
    assert_eq!(frame.cntfrq, 0);
    assert_eq!(frame.cntnsar, 0);
    assert_eq!(frame.cnttidr, 0);
    assert!(frame.cntacr.iter().all(|value| value.bits() == 0));
    assert!(frame.cntvoff.iter().all(|offset| *offset == 0));
    assert!(frame.reserved_00c.iter().all(|word| *word == 0));
    assert!(frame.reserved_060.iter().all(|word| *word == 0));
    assert!(frame.reserved_0c0.iter().all(|word| *word == 0));
    assert!(frame.impdef_100.iter().all(|word| *word == 0));
    assert!(frame.reserved_800.iter().all(|word| *word == 0));
    assert!(frame.impdef_fc0.iter().all(|word| *word == 0));
    assert!(frame.counter_id.iter().all(|word| *word == 0));
}

#[test]
fn zeroed_timer_frames() {
    let frame = CntBase::zeroed();
    assert_eq!(frame.cntpct, 0);
    assert_eq!(frame.cntvct, 0);
    assert_eq!(frame.cntfrq, 0);
    assert_eq!(frame.cntel0acr.bits(), 0);
    assert_eq!(frame.cntvoff, 0);
    assert_eq!(frame.cntp, TimerRegs::zeroed());
    assert_eq!(frame.cntv, TimerRegs::zeroed());
    assert!(frame.reserved.iter().all(|word| *word == 0));
    assert!(frame.counter_id.iter().all(|word| *word == 0));

    let second = CntEl0Base::zeroed();
    assert_eq!(second.cntpct, 0);
    assert_eq!(second.cntvct, 0);
    assert_eq!(second.cntfrq, 0);
    assert_eq!(second.cntp, TimerRegs::zeroed());
    assert_eq!(second.cntv, TimerRegs::zeroed());
    assert!(second.reserved_014.iter().all(|word| *word == 0));
    assert!(second.reserved.iter().all(|word| *word == 0));
    assert!(second.counter_id.iter().all(|word| *word == 0));

    let regs = TimerRegs::zeroed();
    assert_eq!(regs.cval, 0);
    assert_eq!(regs.tval, 0);
    assert_eq!(regs.ctl.bits(), 0);
}
