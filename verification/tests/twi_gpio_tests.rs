use mnemos_platforms::gpio::{IrqPin, Pin, PinB, PinC, PinD, PinE, PinMode, PortBIrqRegisters, Trigger};
use mnemos_platforms::gpio_service::{
    toggle_bit, Error, GpioServer, InterruptMode, InternalPinState, OutputPin, PinState, Request, Response,
};
use mnemos_platforms::twi::{Addr, I2cErrorKind, NoAcknowledgeSource, TwiData, TwiOp, TwiState, TwiStatus};

#[test]
fn twi_write_transaction() {
    let mut d = TwiData::new();
    d.begin_op(true, Addr::SevenBit(0x1f), TwiOp::Write { buf: vec![0xA0, 1], pos: 0, len: 2, end: true });
    d.register_waker();
    assert_eq!(d.state, TwiState::WaitForStart(Addr::SevenBit(0x1f)));
    let a = d.advance_isr(0x08, 0).unwrap();
    assert_eq!(a.data_write, Some(0x3e));
    let a = d.advance_isr(0x18, 0).unwrap();
    assert_eq!(a.data_write, Some(0xA0));
    let a = d.advance_isr(0x28, 0).unwrap();
    assert_eq!(a.data_write, Some(1));
    assert!(!a.wake);
    let a = d.advance_isr(0x28, 0).unwrap();
    assert_eq!(a.data_write, None);
    assert!(a.cntr.stop && !a.cntr.start);
    assert!(a.wake && a.cntr.disable_int);
    assert_eq!(d.state, TwiState::Idle);
    assert_eq!(d.finish_op().unwrap(), vec![0xA0, 1]);
}

#[test]
fn twi_read_transaction_restarts() {
    let mut d = TwiData::new();
    d.begin_op(false, Addr::SevenBit(0x1f), TwiOp::Read { buf: Vec::new(), capacity: 2, len: 2, read: 0, end: false });
    assert_eq!(d.state, TwiState::WaitForRestart(Addr::SevenBit(0x1f)));
    assert_eq!(d.advance_isr(0x10, 0).unwrap().data_write, Some(0x3f));
    let a = d.advance_isr(0x40, 0).unwrap();
    assert!(!a.cntr.clear_ack);
    assert!(d.wants_rx_byte(0x50));
    d.advance_isr(0x50, 7).unwrap();
    let a = d.advance_isr(0x58, 9).unwrap();
    assert!(a.cntr.start && !a.cntr.stop && a.cntr.clear_ack);
    assert_eq!(d.state, TwiState::WaitForRestart(Addr::SevenBit(0x1f)));
    assert_eq!(d.finish_op().unwrap(), vec![7, 9]);
}

#[test]
fn twi_nack_is_an_error() {
    let mut d = TwiData::new();
    d.begin_op(true, Addr::SevenBit(0x50), TwiOp::Write { buf: vec![1], pos: 0, len: 1, end: true });
    d.advance_isr(0x08, 0).unwrap();
    let a = d.advance_isr(0x20, 0).unwrap();
    assert!(a.cntr.stop);
    assert_eq!(d.state, TwiState::Idle);
    assert_eq!(d.finish_op().unwrap_err(), I2cErrorKind::NoAcknowledge(NoAcknowledgeSource::Address));
    assert!(d.advance_isr(0x01, 0).is_none());
    assert_eq!(TwiStatus::try_from(0x28), Ok(TwiStatus::TxDataAcked));
    assert_eq!(TwiStatus::TxDataAcked.code(), 0x28);
    assert!(TwiStatus::try_from(0x04).is_err());
}

#[test]
fn gpio_claims() {
    let mut srv = GpioServer::new();
    let pb7 = Pin::B(PinB::B7);
    assert_eq!(srv.handle_msg(&Request::PinState(pb7)), Ok(Response::PinState(pb7, PinState::Unregistered)));
    assert_eq!(
        srv.handle_msg(&Request::ClaimIrq { pin: pb7, mode: InterruptMode::NegativeEdge }),
        Ok(Response::ClaimIrq(pb7))
    );
    // the same mode again is fine, another is not
    assert_eq!(
        srv.handle_msg(&Request::ClaimIrq { pin: pb7, mode: InterruptMode::NegativeEdge }),
        Ok(Response::ClaimIrq(pb7))
    );
    assert_eq!(
        srv.handle_msg(&Request::ClaimIrq { pin: pb7, mode: InterruptMode::HighLevel }),
        Err(Error::PinInUse(pb7, PinState::Interrupt(InterruptMode::NegativeEdge)))
    );
    let pc1 = Pin::C(PinC::C1);
    assert_eq!(srv.handle_msg(&Request::ClaimOutput(pc1)), Ok(Response::ClaimOutput(OutputPin { pin: pc1 })));
    assert_eq!(srv.pin(pc1), InternalPinState::Output(1));
    assert_eq!(srv.handle_msg(&Request::ClaimOutput(pc1)), Err(Error::PinInUse(pc1, PinState::Output)));
    srv.release(pc1);
    assert_eq!(srv.handle_msg(&Request::ClaimOutput(pc1)), Ok(Response::ClaimOutput(OutputPin { pin: pc1 })));
    let pd = Pin::D(PinD::D3);
    let pe = Pin::E(PinE::E2);
    assert_eq!(srv.handle_msg(&Request::ClaimCustom { pins: vec![(pd, "lcd"), (pe, "cam")] }), Ok(Response::ClaimCustom));
    assert_eq!(srv.pin(pd), InternalPinState::Other("lcd"));
    assert_eq!(
        srv.handle_msg(&Request::ClaimCustom { pins: vec![(Pin::D(PinD::D4), "x"), (pe, "y")] }),
        Err(Error::PinInUse(pe, PinState::Other("cam")))
    );
    assert_eq!(srv.pin(Pin::D(PinD::D4)), InternalPinState::Unregistered);
    // an untracked pin after the first pin in use is never looked at
    assert_eq!(
        srv.handle_msg(&Request::ClaimCustom { pins: vec![(pe, "y"), (Pin::E(PinE::E19), "z")] }),
        Err(Error::PinInUse(pe, PinState::Other("cam")))
    );
}

#[test]
fn output_pin_sets_its_bit() {
    let p = OutputPin { pin: Pin::C(PinC::C1) };
    assert_eq!(p.set(0, true), 0b10);
    assert_eq!(p.set(0b11, false), 0b01);
    assert_eq!(toggle_bit(0, 18, true), 1 << 18);
}

#[test]
fn pin_fields_and_irq_pins() {
    // the mask clears everything below the field too
    assert_eq!(PinMode::Output.set_bits(0xffff_ffff, 1), 0xffff_ff1f & !0xf);
    assert_eq!(Trigger::NegEdge.set_bits(0, 2), 1 << 6);
    let mut regs = PortBIrqRegisters { eint_ctl: 0xff, cfg0: 0, cfg1: 0 };
    let pin = IrqPin::new(PinB::B7, &mut regs);
    assert_eq!(regs.eint_ctl, 0x7f);
    assert_eq!(regs.cfg1, 0b1110);
    assert_eq!(regs.cfg0, 0);
    pin.arm(Trigger::LowLevel, &mut regs);
    assert_eq!(regs.eint_ctl, 0xff);
    // the trigger field is three bits wide: the fourth bit of the mode stays
    assert_eq!(regs.cfg1, 0b1011);
    assert_eq!(pin.disarm(0xff), 0x7f);
    assert_eq!(PinB::B7.index(), 7);
}
