//! RISC-V trap/exception decoding.
//!
//! The `mcause` register holds an interrupt flag in its highest bit; the
//! remaining bits hold either an interrupt cause or an exception cause.
use vstd::prelude::*;

verus! {

/// RISC-V exception causes (the interrupt bit of `mcause` is 0).
#[derive(Copy, Clone, Debug, PartialEq, Eq, Structural)]
pub enum Exception {
    InstAddrMisaligned,
    InstAccessFault,
    IllegalInst,
    Breakpoint,
    LoadAddrMisaligned,
    LoadAccessFault,
    StoreAddrMisaligned,
    StoreAccessFault,
    UModeEnvCall,
    SModeEnvCall,
    MModeEnvCall,
    InstPageFault,
    LoadPageFault,
    StorePageFault,
}

/// RISC-V interrupt causes (the interrupt bit of `mcause` is 1).
#[derive(Copy, Clone, Debug, PartialEq, Eq, Structural)]
pub enum Interrupt {
    UserSw,
    SupervisorSw,
    MachineSw,
    UserTimer,
    SupervisorTimer,
    MachineTimer,
    UserExt,
    SupervisorExt,
    MachineExt,
}

/// A decoded trap cause.
#[derive(Copy, Clone, Debug, PartialEq, Eq, Structural)]
pub enum Trap {
    Interrupt(Interrupt),
    Exception(Exception),
}

/// An `mcause` value that names no known cause.
#[derive(Clone, Copy, Debug, PartialEq, Eq)]
pub struct InvalidMcause {
    pub bits: usize,
    pub err: &'static str,
}

/// The `mcause` interrupt flag: the highest bit of the register.
pub const INTERRUPT_BIT: usize = 1usize << (usize::BITS - 1);

/// Cause code of each exception.
pub open spec fn exception_code(e: Exception) -> usize {
    match e {
        Exception::InstAddrMisaligned => 0,
        Exception::InstAccessFault => 1,
        Exception::IllegalInst => 2,
        Exception::Breakpoint => 3,
        Exception::LoadAddrMisaligned => 4,
        Exception::LoadAccessFault => 5,
        Exception::StoreAddrMisaligned => 6,
        Exception::StoreAccessFault => 7,
        Exception::UModeEnvCall => 8,
        Exception::SModeEnvCall => 9,
        Exception::MModeEnvCall => 11,
        Exception::InstPageFault => 12,
        Exception::LoadPageFault => 13,
        Exception::StorePageFault => 15,
    }
}

/// Cause code of each interrupt.
pub open spec fn interrupt_code(i: Interrupt) -> usize {
    match i {
        Interrupt::UserSw => 0,
        Interrupt::SupervisorSw => 1,
        Interrupt::MachineSw => 3,
        Interrupt::UserTimer => 4,
        Interrupt::SupervisorTimer => 5,
        Interrupt::MachineTimer => 7,
        Interrupt::UserExt => 8,
        Interrupt::SupervisorExt => 9,
        Interrupt::MachineExt => 11,
    }
}

/// The exception, if any, whose cause code is `code`.
pub open spec fn exception_of(code: usize) -> Option<Exception> {
    match code {
        0 => Some(Exception::InstAddrMisaligned),
        1 => Some(Exception::InstAccessFault),
        2 => Some(Exception::IllegalInst),
        3 => Some(Exception::Breakpoint),
        4 => Some(Exception::LoadAddrMisaligned),
        5 => Some(Exception::LoadAccessFault),
        6 => Some(Exception::StoreAddrMisaligned),
        7 => Some(Exception::StoreAccessFault),
        8 => Some(Exception::UModeEnvCall),
        9 => Some(Exception::SModeEnvCall),
        11 => Some(Exception::MModeEnvCall),
        12 => Some(Exception::InstPageFault),
        13 => Some(Exception::LoadPageFault),
        15 => Some(Exception::StorePageFault),
        _ => None,
    }
}

/// The interrupt, if any, whose cause code is `code`.
pub open spec fn interrupt_of(code: usize) -> Option<Interrupt> {
    match code {
        0 => Some(Interrupt::UserSw),
        1 => Some(Interrupt::SupervisorSw),
        3 => Some(Interrupt::MachineSw),
        4 => Some(Interrupt::UserTimer),
        5 => Some(Interrupt::SupervisorTimer),
        7 => Some(Interrupt::MachineTimer),
        8 => Some(Interrupt::UserExt),
        9 => Some(Interrupt::SupervisorExt),
        11 => Some(Interrupt::MachineExt),
        _ => None,
    }
}

/// Message carried by an invalid exception cause.
pub open spec fn exception_error() -> Seq<char> {
    "invalid value for Exception, expected one of [0, 1, 2, 3, 4, 5, 6, 7, 8, 9, 11, 12, 13, 15]"@
}

/// Message carried by an invalid interrupt cause.
pub open spec fn interrupt_error() -> Seq<char> {
    "invalid value for Interrupt, expected one of [0, 1, 3, 4, 5, 7, 8, 9, 11]"@
}

/// What decoding an `mcause` value yields.
pub open spec fn trap_of(bits: usize) -> Option<Trap> {
    let code = (bits & !INTERRUPT_BIT) as usize;
    if bits & INTERRUPT_BIT == INTERRUPT_BIT {
        match interrupt_of(code) {
            Some(i) => Some(Trap::Interrupt(i)),
            None => None,
        }
    } else {
        match exception_of(code) {
            Some(e) => Some(Trap::Exception(e)),
            None => None,
        }
    }
}

/// The description of each exception.
pub open spec fn exception_description(x: Exception) -> Seq<char> {
    match x {
        Exception::InstAddrMisaligned => "Instruction address misaligned"@,
        Exception::InstAccessFault => "Instruction access fault"@,
        Exception::IllegalInst => "Illegal instruction"@,
        Exception::Breakpoint => "Breakpoint"@,
        Exception::LoadAddrMisaligned => "Load address misaligned"@,
        Exception::LoadAccessFault => "Load access fault"@,
        Exception::StoreAddrMisaligned => "Store/AMO address misaligned"@,
        Exception::StoreAccessFault => "Store/AMO access fault"@,
        Exception::UModeEnvCall => "Environment call from U-mode"@,
        Exception::SModeEnvCall => "Environment call from S-mode"@,
        Exception::MModeEnvCall => "Environment call from M-mode"@,
        Exception::InstPageFault => "Instruction page fault"@,
        Exception::LoadPageFault => "Load page fault"@,
        Exception::StorePageFault => "Store/AMO page fault"@,
    }
}

impl Exception {
    /// The `mcause` cause code of this exception.
    pub fn code(&self) -> (r: usize)
        ensures
            r == exception_code(*self),
    {
        match self {
            Exception::InstAddrMisaligned => 0,
            Exception::InstAccessFault => 1,
            Exception::IllegalInst => 2,
            Exception::Breakpoint => 3,
            Exception::LoadAddrMisaligned => 4,
            Exception::LoadAccessFault => 5,
            Exception::StoreAddrMisaligned => 6,
            Exception::StoreAccessFault => 7,
            Exception::UModeEnvCall => 8,
            Exception::SModeEnvCall => 9,
            Exception::MModeEnvCall => 11,
            Exception::InstPageFault => 12,
            Exception::LoadPageFault => 13,
            Exception::StorePageFault => 15,
        }
    }

    /// Decodes an exception cause code.
    ///
    /// Fails, with a message listing the valid codes, on any other value.
    pub fn try_from(value: usize) -> (r: Result<Exception, &'static str>)
        ensures
            match exception_of(value) {
                Some(e) => r == Ok::<Exception, &'static str>(e),
                None => r.is_err() && r->Err_0@ == exception_error(),
            },
    {
        match value {
            0 => Ok(Exception::InstAddrMisaligned),
            1 => Ok(Exception::InstAccessFault),
            2 => Ok(Exception::IllegalInst),
            3 => Ok(Exception::Breakpoint),
            4 => Ok(Exception::LoadAddrMisaligned),
            5 => Ok(Exception::LoadAccessFault),
            6 => Ok(Exception::StoreAddrMisaligned),
            7 => Ok(Exception::StoreAccessFault),
            8 => Ok(Exception::UModeEnvCall),
            9 => Ok(Exception::SModeEnvCall),
            11 => Ok(Exception::MModeEnvCall),
            12 => Ok(Exception::InstPageFault),
            13 => Ok(Exception::LoadPageFault),
            15 => Ok(Exception::StorePageFault),
            _ => Err(
                "invalid value for Exception, expected one of [0, 1, 2, 3, 4, 5, 6, 7, 8, 9, 11, 12, 13, 15]",
            ),
        }
    }

    /// A human-readable description of this exception.
    pub fn description(&self) -> (r: &'static str)
        ensures
            r@ == exception_description(*self),
    {
        match self {
            Exception::InstAddrMisaligned => "Instruction address misaligned",
            Exception::InstAccessFault => "Instruction access fault",
            Exception::IllegalInst => "Illegal instruction",
            Exception::Breakpoint => "Breakpoint",
            Exception::LoadAddrMisaligned => "Load address misaligned",
            Exception::LoadAccessFault => "Load access fault",
            Exception::StoreAddrMisaligned => "Store/AMO address misaligned",
            Exception::StoreAccessFault => "Store/AMO access fault",
            Exception::UModeEnvCall => "Environment call from U-mode",
            Exception::SModeEnvCall => "Environment call from S-mode",
            Exception::MModeEnvCall => "Environment call from M-mode",
            Exception::InstPageFault => "Instruction page fault",
            Exception::LoadPageFault => "Load page fault",
            Exception::StorePageFault => "Store/AMO page fault",
        }
    }
}


/// The description of each interrupt.
pub open spec fn interrupt_description(x: Interrupt) -> Seq<char> {
    match x {
        Interrupt::UserSw => "User software interrupt"@,
        Interrupt::SupervisorSw => "Supervisor software interrupt"@,
        Interrupt::MachineSw => "Machine software interrupt"@,
        Interrupt::UserTimer => "User timer interrupt"@,
        Interrupt::SupervisorTimer => "Supervisor timer interrupt"@,
        Interrupt::MachineTimer => "Machine timer interrupt"@,
        Interrupt::UserExt => "User external interrupt"@,
        Interrupt::SupervisorExt => "Supervisor external interrupt"@,
        Interrupt::MachineExt => "Machine external interrupt"@,
    }
}

impl Interrupt {
    /// The `mcause` cause code of this interrupt.
    pub fn code(&self) -> (r: usize)
        ensures
            r == interrupt_code(*self),
    {
        match self {
            Interrupt::UserSw => 0,
            Interrupt::SupervisorSw => 1,
            Interrupt::MachineSw => 3,
            Interrupt::UserTimer => 4,
            Interrupt::SupervisorTimer => 5,
            Interrupt::MachineTimer => 7,
            Interrupt::UserExt => 8,
            Interrupt::SupervisorExt => 9,
            Interrupt::MachineExt => 11,
        }
    }

    /// Decodes an interrupt cause code.
    ///
    /// Fails, with a message listing the valid codes, on any other value.
    pub fn try_from(value: usize) -> (r: Result<Interrupt, &'static str>)
        ensures
            match interrupt_of(value) {
                Some(i) => r == Ok::<Interrupt, &'static str>(i),
                None => r.is_err() && r->Err_0@ == interrupt_error(),
            },
    {
        match value {
            0 => Ok(Interrupt::UserSw),
            1 => Ok(Interrupt::SupervisorSw),
            3 => Ok(Interrupt::MachineSw),
            4 => Ok(Interrupt::UserTimer),
            5 => Ok(Interrupt::SupervisorTimer),
            7 => Ok(Interrupt::MachineTimer),
            8 => Ok(Interrupt::UserExt),
            9 => Ok(Interrupt::SupervisorExt),
            11 => Ok(Interrupt::MachineExt),
            _ => Err("invalid value for Interrupt, expected one of [0, 1, 3, 4, 5, 7, 8, 9, 11]"),
        }
    }

    /// A human-readable description of this interrupt.
    pub fn description(&self) -> (r: &'static str)
        ensures
            r@ == interrupt_description(*self),
    {
        match self {
            Interrupt::UserSw => "User software interrupt",
            Interrupt::SupervisorSw => "Supervisor software interrupt",
            Interrupt::MachineSw => "Machine software interrupt",
            Interrupt::UserTimer => "User timer interrupt",
            Interrupt::SupervisorTimer => "Supervisor timer interrupt",
            Interrupt::MachineTimer => "Machine timer interrupt",
            Interrupt::UserExt => "User external interrupt",
            Interrupt::SupervisorExt => "Supervisor external interrupt",
            Interrupt::MachineExt => "Machine external interrupt",
        }
    }
}

impl Trap {
    /// Decodes the value of the `mcause` register.
    ///
    /// With the interrupt bit set the remaining bits name an interrupt cause,
    /// otherwise an exception cause; an unknown cause is an error carrying
    /// the raw value and the decoder's message.
    pub fn from_bits(bits: usize) -> (r: Result<Trap, InvalidMcause>)
        ensures
            match trap_of(bits) {
                Some(t) => r == Ok::<Trap, InvalidMcause>(t),
                None => r.is_err() && r->Err_0.bits == bits && r->Err_0.err@ == (
                    if bits & INTERRUPT_BIT == INTERRUPT_BIT {
                        interrupt_error()
                    } else {
                        exception_error()
                    }),
            },
    {
        let code = bits & !INTERRUPT_BIT;
        if bits & INTERRUPT_BIT == INTERRUPT_BIT {
            match Interrupt::try_from(code) {
                Ok(i) => Ok(Trap::Interrupt(i)),
                Err(err) => Err(InvalidMcause { bits, err }),
            }
        } else {
            match Exception::try_from(code) {
                Ok(e) => Ok(Trap::Exception(e)),
                Err(err) => Err(InvalidMcause { bits, err }),
            }
        }
    }

    /// A human-readable description of this trap's cause.
    pub fn description(&self) -> (r: &'static str)
        ensures
            r@ == match *self {
                Trap::Interrupt(i) => interrupt_description(i),
                Trap::Exception(e) => exception_description(e),
            },
    {
        match self {
            Trap::Interrupt(i) => i.description(),
            Trap::Exception(e) => e.description(),
        }
    }
}

/// Cause codes are those of the RISC-V privileged architecture: exceptions
/// 0 to 9, 11 to 13 and 15 in the order the manual lists them (load faults
/// 4 and 5 before store faults 6 and 7, environment calls 8, 9 and 11, page
/// faults 12, 13 and 15), and interrupts with the user, supervisor and
/// machine levels of software (0, 1, 3), timer (4, 5, 7) and external (8,
/// 9, 11) interrupts.
pub proof fn lemma_cause_codes()
    ensures
        exception_code(Exception::InstAddrMisaligned) == 0,
        exception_code(Exception::InstAccessFault) == 1,
        exception_code(Exception::IllegalInst) == 2,
        exception_code(Exception::Breakpoint) == 3,
        exception_code(Exception::LoadAddrMisaligned) == 4,
        exception_code(Exception::LoadAccessFault) == 5,
        exception_code(Exception::StoreAddrMisaligned) == 6,
        exception_code(Exception::StoreAccessFault) == 7,
        exception_code(Exception::UModeEnvCall) == 8,
        exception_code(Exception::SModeEnvCall) == 9,
        exception_code(Exception::MModeEnvCall) == 11,
        exception_code(Exception::InstPageFault) == 12,
        exception_code(Exception::LoadPageFault) == 13,
        exception_code(Exception::StorePageFault) == 15,
        interrupt_code(Interrupt::UserSw) == 0,
        interrupt_code(Interrupt::SupervisorSw) == 1,
        interrupt_code(Interrupt::MachineSw) == 3,
        interrupt_code(Interrupt::UserTimer) == 4,
        interrupt_code(Interrupt::SupervisorTimer) == 5,
        interrupt_code(Interrupt::MachineTimer) == 7,
        interrupt_code(Interrupt::UserExt) == 8,
        interrupt_code(Interrupt::SupervisorExt) == 9,
        interrupt_code(Interrupt::MachineExt) == 11,
        forall|c: usize| c == 10 || c == 14 || c >= 16 ==> exception_of(c) is None,
        forall|c: usize| c == 2 || c == 6 || c == 10 || c >= 12 ==> interrupt_of(c) is None,
{
}

/// Decoding a cause code gives back the exception that has that code.
pub proof fn lemma_exception_code_roundtrip(e: Exception)
    ensures
        exception_of(exception_code(e)) == Some(e),
{
}

/// Decoding a cause code gives back the interrupt that has that code.
pub proof fn lemma_interrupt_code_roundtrip(i: Interrupt)
    ensures
        interrupt_of(interrupt_code(i)) == Some(i),
{
}

/// An `mcause` value built from an interrupt's code with the interrupt bit
/// set decodes to that interrupt; one built from an exception's code with the
/// bit clear decodes to that exception.
pub proof fn lemma_mcause_roundtrip(i: Interrupt, e: Exception)
    ensures
        trap_of(interrupt_code(i) | INTERRUPT_BIT) == Some(Trap::Interrupt(i)),
        trap_of(exception_code(e)) == Some(Trap::Exception(e)),
{
    let ci = interrupt_code(i);
    let ce = exception_code(e);
    let b = INTERRUPT_BIT;
    assert(b == 1usize << ((usize::BITS - 1) as u32));
    assert(ci < 16);
    assert(ce < 16);
    assert((ci | b) & b == b && ((ci | b) & !b) == ci) by (bit_vector)
        requires ci < 16, b == 1usize << ((usize::BITS - 1) as u32);
    assert(ce & b != b && (ce & !b) == ce) by (bit_vector)
        requires ce < 16, b == 1usize << ((usize::BITS - 1) as u32);
}

} // verus!
