//! GPIO pins of the D1, the packing of per-pin mode and trigger fields into
//! the pin configuration registers, and the set-up of port B interrupt pins.
use vstd::prelude::*;

verus! {

/// Pins of GPIO group PB.
#[derive(Copy, Clone, Debug, PartialEq, Eq, PartialOrd, Ord, Structural)]
pub enum PinB {
    B0,
    B1,
    B2,
    B3,
    B4,
    B5,
    B6,
    B7,
    B8,
    B9,
    B10,
    B11,
    B12,
}

/// The number of each pin of group PB within its group.
pub open spec fn pin_b_index(p: PinB) -> u8 {
    match p {
        PinB::B0 => 0,
        PinB::B1 => 1,
        PinB::B2 => 2,
        PinB::B3 => 3,
        PinB::B4 => 4,
        PinB::B5 => 5,
        PinB::B6 => 6,
        PinB::B7 => 7,
        PinB::B8 => 8,
        PinB::B9 => 9,
        PinB::B10 => 10,
        PinB::B11 => 11,
        PinB::B12 => 12,
    }
}

impl PinB {
    /// The pin's number within its group.
    pub fn index(&self) -> (r: u8)
        ensures
            r == pin_b_index(*self),
            r < 13,
    {
        match self {
            PinB::B0 => 0,
            PinB::B1 => 1,
            PinB::B2 => 2,
            PinB::B3 => 3,
            PinB::B4 => 4,
            PinB::B5 => 5,
            PinB::B6 => 6,
            PinB::B7 => 7,
            PinB::B8 => 8,
            PinB::B9 => 9,
            PinB::B10 => 10,
            PinB::B11 => 11,
            PinB::B12 => 12,
        }
    }
}

/// Pins of GPIO group PC.
#[derive(Copy, Clone, Debug, PartialEq, Eq, PartialOrd, Ord, Structural)]
pub enum PinC {
    C0,
    C1,
    C2,
    C3,
    C4,
    C5,
    C6,
    C7,
}

/// The number of each pin of group PC within its group.
pub open spec fn pin_c_index(p: PinC) -> u8 {
    match p {
        PinC::C0 => 0,
        PinC::C1 => 1,
        PinC::C2 => 2,
        PinC::C3 => 3,
        PinC::C4 => 4,
        PinC::C5 => 5,
        PinC::C6 => 6,
        PinC::C7 => 7,
    }
}

impl PinC {
    /// The pin's number within its group.
    pub fn index(&self) -> (r: u8)
        ensures
            r == pin_c_index(*self),
            r < 8,
    {
        match self {
            PinC::C0 => 0,
            PinC::C1 => 1,
            PinC::C2 => 2,
            PinC::C3 => 3,
            PinC::C4 => 4,
            PinC::C5 => 5,
            PinC::C6 => 6,
            PinC::C7 => 7,
        }
    }
}

/// Pins of GPIO group PD.
#[derive(Copy, Clone, Debug, PartialEq, Eq, PartialOrd, Ord, Structural)]
pub enum PinD {
    D0,
    D1,
    D2,
    D3,
    D4,
    D5,
    D6,
    D7,
    D8,
    D9,
    D10,
    D11,
    D12,
    D13,
    D14,
    D15,
    D16,
    D17,
    D18,
    D19,
    D20,
    D21,
    D22,
}

/// The number of each pin of group PD within its group.
pub open spec fn pin_d_index(p: PinD) -> u8 {
    match p {
        PinD::D0 => 0,
        PinD::D1 => 1,
        PinD::D2 => 2,
        PinD::D3 => 3,
        PinD::D4 => 4,
        PinD::D5 => 5,
        PinD::D6 => 6,
        PinD::D7 => 7,
        PinD::D8 => 8,
        PinD::D9 => 9,
        PinD::D10 => 10,
        PinD::D11 => 11,
        PinD::D12 => 12,
        PinD::D13 => 13,
        PinD::D14 => 14,
        PinD::D15 => 15,
        PinD::D16 => 16,
        PinD::D17 => 17,
        PinD::D18 => 18,
        PinD::D19 => 19,
        PinD::D20 => 20,
        PinD::D21 => 21,
        PinD::D22 => 22,
    }
}

impl PinD {
    /// The pin's number within its group.
    pub fn index(&self) -> (r: u8)
        ensures
            r == pin_d_index(*self),
            r < 23,
    {
        match self {
            PinD::D0 => 0,
            PinD::D1 => 1,
            PinD::D2 => 2,
            PinD::D3 => 3,
            PinD::D4 => 4,
            PinD::D5 => 5,
            PinD::D6 => 6,
            PinD::D7 => 7,
            PinD::D8 => 8,
            PinD::D9 => 9,
            PinD::D10 => 10,
            PinD::D11 => 11,
            PinD::D12 => 12,
            PinD::D13 => 13,
            PinD::D14 => 14,
            PinD::D15 => 15,
            PinD::D16 => 16,
            PinD::D17 => 17,
            PinD::D18 => 18,
            PinD::D19 => 19,
            PinD::D20 => 20,
            PinD::D21 => 21,
            PinD::D22 => 22,
        }
    }
}

/// Pins of GPIO group PE.
#[derive(Copy, Clone, Debug, PartialEq, Eq, PartialOrd, Ord, Structural)]
pub enum PinE {
    E0,
    E1,
    E2,
    E3,
    E4,
    E5,
    E6,
    E7,
    E8,
    E9,
    E10,
    E11,
    E12,
    E13,
    E14,
    E15,
    E16,
    E17,
    E18,
    E19,
}

/// The number of each pin of group PE within its group.
pub open spec fn pin_e_index(p: PinE) -> u8 {
    match p {
        PinE::E0 => 0,
        PinE::E1 => 1,
        PinE::E2 => 2,
        PinE::E3 => 3,
        PinE::E4 => 4,
        PinE::E5 => 5,
        PinE::E6 => 6,
        PinE::E7 => 7,
        PinE::E8 => 8,
        PinE::E9 => 9,
        PinE::E10 => 10,
        PinE::E11 => 11,
        PinE::E12 => 12,
        PinE::E13 => 13,
        PinE::E14 => 14,
        PinE::E15 => 15,
        PinE::E16 => 16,
        PinE::E17 => 17,
        PinE::E18 => 18,
        PinE::E19 => 19,
    }
}

impl PinE {
    /// The pin's number within its group.
    pub fn index(&self) -> (r: u8)
        ensures
            r == pin_e_index(*self),
            r < 20,
    {
        match self {
            PinE::E0 => 0,
            PinE::E1 => 1,
            PinE::E2 => 2,
            PinE::E3 => 3,
            PinE::E4 => 4,
            PinE::E5 => 5,
            PinE::E6 => 6,
            PinE::E7 => 7,
            PinE::E8 => 8,
            PinE::E9 => 9,
            PinE::E10 => 10,
            PinE::E11 => 11,
            PinE::E12 => 12,
            PinE::E13 => 13,
            PinE::E14 => 14,
            PinE::E15 => 15,
            PinE::E16 => 16,
            PinE::E17 => 17,
            PinE::E18 => 18,
            PinE::E19 => 19,
        }
    }
}

/// Pins of GPIO group PF.
#[derive(Copy, Clone, Debug, PartialEq, Eq, PartialOrd, Ord, Structural)]
pub enum PinF {
    F0,
    F1,
    F2,
    F3,
    F4,
    F5,
    F6,
    F7,
}

/// The number of each pin of group PF within its group.
pub open spec fn pin_f_index(p: PinF) -> u8 {
    match p {
        PinF::F0 => 0,
        PinF::F1 => 1,
        PinF::F2 => 2,
        PinF::F3 => 3,
        PinF::F4 => 4,
        PinF::F5 => 5,
        PinF::F6 => 6,
        PinF::F7 => 7,
    }
}

impl PinF {
    /// The pin's number within its group.
    pub fn index(&self) -> (r: u8)
        ensures
            r == pin_f_index(*self),
            r < 8,
    {
        match self {
            PinF::F0 => 0,
            PinF::F1 => 1,
            PinF::F2 => 2,
            PinF::F3 => 3,
            PinF::F4 => 4,
            PinF::F5 => 5,
            PinF::F6 => 6,
            PinF::F7 => 7,
        }
    }
}

/// Pins of GPIO group PG.
#[derive(Copy, Clone, Debug, PartialEq, Eq, PartialOrd, Ord, Structural)]
pub enum PinG {
    G0,
    G1,
    G2,
    G3,
    G4,
    G5,
    G6,
    G7,
    G8,
    G9,
    G10,
    G11,
    G12,
    G13,
    G14,
    G15,
    G16,
    G17,
    G18,
    G19,
}

/// The number of each pin of group PG within its group.
pub open spec fn pin_g_index(p: PinG) -> u8 {
    match p {
        PinG::G0 => 0,
        PinG::G1 => 1,
        PinG::G2 => 2,
        PinG::G3 => 3,
        PinG::G4 => 4,
        PinG::G5 => 5,
        PinG::G6 => 6,
        PinG::G7 => 7,
        PinG::G8 => 8,
        PinG::G9 => 9,
        PinG::G10 => 10,
        PinG::G11 => 11,
        PinG::G12 => 12,
        PinG::G13 => 13,
        PinG::G14 => 14,
        PinG::G15 => 15,
        PinG::G16 => 16,
        PinG::G17 => 17,
        PinG::G18 => 18,
        PinG::G19 => 19,
    }
}

impl PinG {
    /// The pin's number within its group.
    pub fn index(&self) -> (r: u8)
        ensures
            r == pin_g_index(*self),
            r < 20,
    {
        match self {
            PinG::G0 => 0,
            PinG::G1 => 1,
            PinG::G2 => 2,
            PinG::G3 => 3,
            PinG::G4 => 4,
            PinG::G5 => 5,
            PinG::G6 => 6,
            PinG::G7 => 7,
            PinG::G8 => 8,
            PinG::G9 => 9,
            PinG::G10 => 10,
            PinG::G11 => 11,
            PinG::G12 => 12,
            PinG::G13 => 13,
            PinG::G14 => 14,
            PinG::G15 => 15,
            PinG::G16 => 16,
            PinG::G17 => 17,
            PinG::G18 => 18,
            PinG::G19 => 19,
        }
    }
}

/// A GPIO pin.
#[derive(Copy, Clone, Debug, PartialEq, Eq, Structural)]
pub enum Pin {
    /// Pin group PB
    B(PinB),
    /// Pin group PC
    C(PinC),
    /// Pin group PD
    D(PinD),
    /// Pin group PE
    E(PinE),
    /// Pin group PF
    F(PinF),
    /// Pin group PG
    G(PinG),
}


/// IRQ trigger conditions of an interrupt pin.
#[derive(Copy, Clone, Debug, PartialEq, Eq, Structural)]
pub enum Trigger {
    PosEdge,
    NegEdge,
    DoubleEdge,
    HighLevel,
    LowLevel,
}

/// Pin modes.
#[derive(Copy, Clone, Debug, PartialEq, Eq, Structural)]
pub enum PinMode {
    /// Input mode
    Input,
    /// Output mode
    Output,
    /// Alternate function 1 (pin-specific)
    Fn1,
    /// Alternate function 2 (pin-specific)
    Fn2,
    /// Alternate function 3 (pin-specific)
    Fn3,
    /// Alternate function 4 (pin-specific)
    Fn4,
    /// Input interrupt mode
    Irq,
    /// I/O disabled
    Off,
}

/// The field value of each trigger in the `EINT_CFG` registers.
pub open spec fn trigger_bits(t: Trigger) -> u32 {
    match t {
        Trigger::PosEdge => 0x0,
        Trigger::NegEdge => 0x1,
        Trigger::DoubleEdge => 0x4,
        Trigger::HighLevel => 0x2,
        Trigger::LowLevel => 0x3,
    }
}

/// The field value of each mode in the `CFG` registers.
pub open spec fn mode_bits(m: PinMode) -> u32 {
    match m {
        PinMode::Input => 0b0000,
        PinMode::Output => 0b0001,
        PinMode::Fn1 => 0b0010,
        PinMode::Fn2 => 0b0011,
        PinMode::Fn3 => 0b0100,
        PinMode::Fn4 => 0b0101,
        PinMode::Irq => 0b1110,
        PinMode::Off => 0b1111,
    }
}

/// The register after writing the `width`-bit field of pin `num`: the new
/// value at bit `num * width`. The mask that clears the old value is the
/// complement of the field mask shifted into place, so every bit below the
/// pin's field is cleared too; the bits above it are kept.
pub open spec fn pin_field_update(bits: u32, num: u32, width: u32, mask: u32, value: u32) -> u32 {
    let shift = num * width;
    (bits & ((!mask) << (shift as u32))) | (value << (shift as u32))
}

impl Trigger {
    /// Number of bits of each pin's trigger in the `EINT_CFG` registers.
    pub const BITS: u32 = 3;
    /// Mask of one pin's trigger field.
    pub const MASK: u32 = 0b111;

    /// The field value of this trigger.
    pub fn bits(&self) -> (r: u32)
        ensures
            r == trigger_bits(*self),
    {
        match self {
            Trigger::PosEdge => 0x0,
            Trigger::NegEdge => 0x1,
            Trigger::DoubleEdge => 0x4,
            Trigger::HighLevel => 0x2,
            Trigger::LowLevel => 0x3,
        }
    }

    /// Writes this trigger into the field of pin `num` of an `EINT_CFG`
    /// register value.
    pub fn set_bits(self, bits: u32, num: usize) -> (r: u32)
        requires
            num * 3 < 32,
        ensures
            r == pin_field_update(bits, num as u32, 3, 0b111, trigger_bits(self)),
    {
        let shift = num as u32 * Self::BITS;
        let trigger = self.bits();
        let mask = !(Self::MASK) << shift;
        (bits & mask) | (trigger << shift)
    }
}

impl PinMode {
    /// Number of bits of each pin's mode in the `CFG` registers.
    pub const BITS: u32 = 4;
    /// Mask of one pin's mode field.
    pub const MASK: u32 = 0b1111;

    /// The field value of this mode.
    pub fn bits(&self) -> (r: u32)
        ensures
            r == mode_bits(*self),
    {
        match self {
            PinMode::Input => 0b0000,
            PinMode::Output => 0b0001,
            PinMode::Fn1 => 0b0010,
            PinMode::Fn2 => 0b0011,
            PinMode::Fn3 => 0b0100,
            PinMode::Fn4 => 0b0101,
            PinMode::Irq => 0b1110,
            PinMode::Off => 0b1111,
        }
    }

    /// Writes this mode into the field of pin `num` of a `CFG` register
    /// value.
    pub fn set_bits(self, bits: u32, num: usize) -> (r: u32)
        requires
            num * 4 < 32,
        ensures
            r == pin_field_update(bits, num as u32, 4, 0b1111, mode_bits(self)),
    {
        let shift = num as u32 * Self::BITS;
        let mode = self.bits();
        let mask = !(Self::MASK) << shift;
        (bits & mask) | (mode << shift)
    }
}

/// After a field update of a field that fits in the register, the pin's
/// field holds the new value, every bit above the field is as before, and
/// every bit below it is clear.
pub proof fn lemma_pin_field_update(bits: u32, num: u32, width: u32, mask: u32, value: u32)
    requires
        (width == 3 && mask == 0b111) || (width == 4 && mask == 0b1111),
        num * width + width <= 32,
        value <= mask,
    ensures
        ({
            let shift = (num * width) as u32;
            let r = pin_field_update(bits, num, width, mask, value);
            &&& (r >> shift) & mask == value
            &&& r >> ((shift + width) as u32) == bits >> ((shift + width) as u32)
            &&& r & (((1u32 << shift) - 1) as u32) == 0
        }),
{
    let shift = (num * width) as u32;
    let r = pin_field_update(bits, num, width, mask, value);
    assert(r == (bits & ((!mask) << shift)) | (value << shift));
    assert({
        &&& (((bits & ((!mask) << shift)) | (value << shift)) >> shift) & mask == value
        &&& ((bits & ((!mask) << shift)) | (value << shift)) >> ((shift
            + width) as u32) == bits >> ((shift + width) as u32)
        &&& ((bits & ((!mask) << shift)) | (value << shift)) & (((1u32 << shift) - 1) as u32) == 0
    }) by (bit_vector)
        requires
            (width == 3 && mask == 0b111) || (width == 4 && mask == 0b1111),
            shift + width <= 32,
            value <= mask,
    ;
}

/// An interrupt-capable GPIO pin.
#[derive(Copy, Clone, Debug, PartialEq, Eq)]
pub struct IrqPin<T> {
    pub pin: T,
}

/// The port B registers involved in configuring an interrupt pin.
#[derive(Copy, Clone, Debug, PartialEq, Eq, Structural)]
pub struct PortBIrqRegisters {
    /// `PB_EINT_CTL`: per-pin interrupt enables.
    pub eint_ctl: u32,
    /// `PB_CFG0` (or, for the trigger, `PB_EINT_CFG0`).
    pub cfg0: u32,
    /// `PB_CFG1` (or, for the trigger, `PB_EINT_CFG1`).
    pub cfg1: u32,
}

/// Which of two registers holds pin `num`'s field, and its position there:
/// pins from 7 up go to the second register, at `num - 7`.
pub open spec fn split_register(num: u32) -> (bool, u32) {
    if num >= 7 {
        (true, (num - 7) as u32)
    } else {
        (false, num)
    }
}

/// A pair of registers after writing pin `num`'s field.
pub open spec fn split_update(regs: PortBIrqRegisters, num: u32, width: u32, mask: u32, value: u32) -> PortBIrqRegisters {
    let (second, pos) = split_register(num);
    if second {
        PortBIrqRegisters { cfg1: pin_field_update(regs.cfg1, pos, width, mask, value), ..regs }
    } else {
        PortBIrqRegisters { cfg0: pin_field_update(regs.cfg0, pos, width, mask, value), ..regs }
    }
}

impl IrqPin<PinB> {
    /// Puts a port B pin into interrupt mode: its interrupt is disabled in
    /// `PB_EINT_CTL` and its mode set to `Irq` in `PB_CFG0` or `PB_CFG1`.
    pub fn new(pin: PinB, regs: &mut PortBIrqRegisters) -> (r: IrqPin<PinB>)
        ensures
            r.pin == pin,
            *final(regs) == split_update(
                PortBIrqRegisters { eint_ctl: old(regs).eint_ctl & !(1u32 << (pin_b_index(pin) as u32)), ..*old(regs) },
                pin_b_index(pin) as u32,
                4,
                0b1111,
                mode_bits(PinMode::Irq),
            ),
    {
        let num = pin.index() as u32;
        regs.eint_ctl = regs.eint_ctl & !(1u32 << num);
        if num >= 7 {
            let n = num - 7;
            regs.cfg1 = PinMode::Irq.set_bits(regs.cfg1, n as usize);
        } else {
            regs.cfg0 = PinMode::Irq.set_bits(regs.cfg0, num as usize);
        }
        IrqPin { pin }
    }

    /// Arms the pin's interrupt for `trigger`: the trigger is written to
    /// `PB_EINT_CFG0` or `PB_EINT_CFG1` (given in `regs.cfg0`/`regs.cfg1`)
    /// and the pin's interrupt enabled in `PB_EINT_CTL`.
    pub fn arm(&self, trigger: Trigger, regs: &mut PortBIrqRegisters)
        ensures
            *final(regs) == split_update(
                PortBIrqRegisters { eint_ctl: old(regs).eint_ctl | (1u32 << (pin_b_index(self.pin) as u32)), ..*old(regs) },
                pin_b_index(self.pin) as u32,
                3,
                0b111,
                trigger_bits(trigger),
            ),
    {
        let num = self.pin.index() as u32;
        let int_enable = 1u32 << num;
        if num >= 7 {
            let n = num - 7;
            regs.cfg1 = trigger.set_bits(regs.cfg1, n as usize);
        } else {
            regs.cfg0 = trigger.set_bits(regs.cfg0, num as usize);
        }
        regs.eint_ctl = regs.eint_ctl | int_enable;
    }

    /// Disarms the pin's interrupt in `PB_EINT_CTL`.
    pub fn disarm(&self, eint_ctl: u32) -> (r: u32)
        ensures
            r == eint_ctl & !(1u32 << (pin_b_index(self.pin) as u32)),
    {
        let num = self.pin.index() as u32;
        eint_ctl & !(1u32 << num)
    }
}

/// The trigger and mode field values are those of the D1 manual:
/// positive edge 0, negative edge 1, high level 2, low level 3, double
/// edge 4; input 0, output 1, functions 2 to 5, interrupt 14 and off 15.
pub proof fn lemma_field_values()
    ensures
        trigger_bits(Trigger::PosEdge) == 0x0,
        trigger_bits(Trigger::NegEdge) == 0x1,
        trigger_bits(Trigger::DoubleEdge) == 0x4,
        trigger_bits(Trigger::HighLevel) == 0x2,
        trigger_bits(Trigger::LowLevel) == 0x3,
        mode_bits(PinMode::Input) == 0b0000,
        mode_bits(PinMode::Output) == 0b0001,
        mode_bits(PinMode::Fn1) == 0b0010,
        mode_bits(PinMode::Fn2) == 0b0011,
        mode_bits(PinMode::Fn3) == 0b0100,
        mode_bits(PinMode::Fn4) == 0b0101,
        mode_bits(PinMode::Irq) == 0b1110,
        mode_bits(PinMode::Off) == 0b1111,
{
}


/// Every pin's number within its group is the number in its name: `B7`
/// is bit 7 of group B, and so on for every group.
pub proof fn lemma_pin_numbers()
    ensures
        pin_b_index(PinB::B0) == 0,
        pin_b_index(PinB::B1) == 1,
        pin_b_index(PinB::B2) == 2,
        pin_b_index(PinB::B3) == 3,
        pin_b_index(PinB::B4) == 4,
        pin_b_index(PinB::B5) == 5,
        pin_b_index(PinB::B6) == 6,
        pin_b_index(PinB::B7) == 7,
        pin_b_index(PinB::B8) == 8,
        pin_b_index(PinB::B9) == 9,
        pin_b_index(PinB::B10) == 10,
        pin_b_index(PinB::B11) == 11,
        pin_b_index(PinB::B12) == 12,
        pin_c_index(PinC::C0) == 0,
        pin_c_index(PinC::C1) == 1,
        pin_c_index(PinC::C2) == 2,
        pin_c_index(PinC::C3) == 3,
        pin_c_index(PinC::C4) == 4,
        pin_c_index(PinC::C5) == 5,
        pin_c_index(PinC::C6) == 6,
        pin_c_index(PinC::C7) == 7,
        pin_d_index(PinD::D0) == 0,
        pin_d_index(PinD::D1) == 1,
        pin_d_index(PinD::D2) == 2,
        pin_d_index(PinD::D3) == 3,
        pin_d_index(PinD::D4) == 4,
        pin_d_index(PinD::D5) == 5,
        pin_d_index(PinD::D6) == 6,
        pin_d_index(PinD::D7) == 7,
        pin_d_index(PinD::D8) == 8,
        pin_d_index(PinD::D9) == 9,
        pin_d_index(PinD::D10) == 10,
        pin_d_index(PinD::D11) == 11,
        pin_d_index(PinD::D12) == 12,
        pin_d_index(PinD::D13) == 13,
        pin_d_index(PinD::D14) == 14,
        pin_d_index(PinD::D15) == 15,
        pin_d_index(PinD::D16) == 16,
        pin_d_index(PinD::D17) == 17,
        pin_d_index(PinD::D18) == 18,
        pin_d_index(PinD::D19) == 19,
        pin_d_index(PinD::D20) == 20,
        pin_d_index(PinD::D21) == 21,
        pin_d_index(PinD::D22) == 22,
        pin_e_index(PinE::E0) == 0,
        pin_e_index(PinE::E1) == 1,
        pin_e_index(PinE::E2) == 2,
        pin_e_index(PinE::E3) == 3,
        pin_e_index(PinE::E4) == 4,
        pin_e_index(PinE::E5) == 5,
        pin_e_index(PinE::E6) == 6,
        pin_e_index(PinE::E7) == 7,
        pin_e_index(PinE::E8) == 8,
        pin_e_index(PinE::E9) == 9,
        pin_e_index(PinE::E10) == 10,
        pin_e_index(PinE::E11) == 11,
        pin_e_index(PinE::E12) == 12,
        pin_e_index(PinE::E13) == 13,
        pin_e_index(PinE::E14) == 14,
        pin_e_index(PinE::E15) == 15,
        pin_e_index(PinE::E16) == 16,
        pin_e_index(PinE::E17) == 17,
        pin_e_index(PinE::E18) == 18,
        pin_e_index(PinE::E19) == 19,
        pin_f_index(PinF::F0) == 0,
        pin_f_index(PinF::F1) == 1,
        pin_f_index(PinF::F2) == 2,
        pin_f_index(PinF::F3) == 3,
        pin_f_index(PinF::F4) == 4,
        pin_f_index(PinF::F5) == 5,
        pin_f_index(PinF::F6) == 6,
        pin_f_index(PinF::F7) == 7,
        pin_g_index(PinG::G0) == 0,
        pin_g_index(PinG::G1) == 1,
        pin_g_index(PinG::G2) == 2,
        pin_g_index(PinG::G3) == 3,
        pin_g_index(PinG::G4) == 4,
        pin_g_index(PinG::G5) == 5,
        pin_g_index(PinG::G6) == 6,
        pin_g_index(PinG::G7) == 7,
        pin_g_index(PinG::G8) == 8,
        pin_g_index(PinG::G9) == 9,
        pin_g_index(PinG::G10) == 10,
        pin_g_index(PinG::G11) == 11,
        pin_g_index(PinG::G12) == 12,
        pin_g_index(PinG::G13) == 13,
        pin_g_index(PinG::G14) == 14,
        pin_g_index(PinG::G15) == 15,
        pin_g_index(PinG::G16) == 16,
        pin_g_index(PinG::G17) == 17,
        pin_g_index(PinG::G18) == 18,
        pin_g_index(PinG::G19) == 19,
{
}


} // verus!
