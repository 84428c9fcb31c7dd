use mnemos_platforms::trap::{Exception, Interrupt, Trap, INTERRUPT_BIT};

#[test]
fn mcause_interrupt_decodes() {
    assert_eq!(Trap::from_bits(INTERRUPT_BIT | 11), Ok(Trap::Interrupt(Interrupt::MachineExt)));
    assert_eq!(Trap::from_bits(INTERRUPT_BIT | 7), Ok(Trap::Interrupt(Interrupt::MachineTimer)));
}

#[test]
fn mcause_exception_decodes() {
    assert_eq!(Trap::from_bits(2), Ok(Trap::Exception(Exception::IllegalInst)));
    assert_eq!(Trap::from_bits(15), Ok(Trap::Exception(Exception::StorePageFault)));
}

#[test]
fn mcause_reserved_codes_are_errors() {
    let e = Trap::from_bits(10).unwrap_err();
    assert_eq!(e.bits, 10);
    assert_eq!(
        e.err,
        "invalid value for Exception, expected one of [0, 1, 2, 3, 4, 5, 6, 7, 8, 9, 11, 12, 13, 15]"
    );
    let e = Trap::from_bits(INTERRUPT_BIT | 2).unwrap_err();
    assert_eq!(e.bits, INTERRUPT_BIT | 2);
    assert_eq!(e.err, "invalid value for Interrupt, expected one of [0, 1, 3, 4, 5, 7, 8, 9, 11]");
}

#[test]
fn cause_codes_round_trip() {
    for code in 0..16usize {
        if let Ok(e) = Exception::try_from(code) {
            assert_eq!(e.code(), code);
        }
        if let Ok(i) = Interrupt::try_from(code) {
            assert_eq!(i.code(), code);
            assert_eq!(Trap::from_bits(INTERRUPT_BIT | code), Ok(Trap::Interrupt(i)));
        }
    }
    assert_eq!(Exception::IllegalInst.description(), "Illegal instruction");
    assert_eq!(Trap::Interrupt(Interrupt::MachineTimer).description(), Interrupt::MachineTimer.description());
}
