//! The TWI (I²C controller) interrupt state machine.
//!
//! Each TWI interrupt reports a status code; together with the driver's
//! current state and the operation in flight it decides the next state,
//! which byte (if any) to put in `TWI_DATA`, and which `TWI_CNTR` bits to
//! set. The register reads and writes themselves are done by the caller.
use vstd::prelude::*;

verus! {

/// An I²C target address.
#[derive(Copy, Clone, Debug, PartialEq, Eq, Structural)]
pub enum Addr {
    SevenBit(u8),
    TenBit(u16),
}

/// Which part of a transfer was not acknowledged.
#[derive(Copy, Clone, Debug, PartialEq, Eq, Structural)]
pub enum NoAcknowledgeSource {
    Address,
    Data,
    Unknown,
}

/// I²C error kinds reported to the requester of a transfer.
#[derive(Copy, Clone, Debug, PartialEq, Eq, Structural)]
pub enum I2cErrorKind {
    Bus,
    ArbitrationLoss,
    NoAcknowledge(NoAcknowledgeSource),
    Overrun,
    Other,
}

/// Values of the `TWI_STAT` register.
#[derive(Copy, Clone, Debug, PartialEq, Eq, Structural)]
pub enum TwiStatus {
    /// Bus error.
    BusError,
    /// START condition transmitted.
    StartTransmitted,
    /// Repeated START condition transmitted.
    RepeatedStartTransmitted,
    /// Address + Write bit transmitted, ACK received.
    Addr1WriteAcked,
    /// Address + Write bit transmitted, NACK received.
    Addr1WriteNacked,
    /// Data byte transmitted in controller mode, ACK received.
    TxDataAcked,
    /// Data byte transmitted in controller mode, ACK not received.
    TxDataNacked,
    /// Arbitration lost in address or data byte.
    ArbitrationLost,
    /// Address + Read bit transmitted, ACK received.
    Addr1ReadAcked,
    /// Address + Read bit transmitted, ACK not received.
    Addr1ReadNacked,
    /// Data byte received in controller mode, ACK transmitted.
    RxDataAcked,
    /// Data byte received in controller mode, no ACK transmitted.
    RxDataNacked,
    /// Target address and write bit received, ACK transmitted.
    TargetAddrWriteAcked,
    /// Arbitration lost in the address as controller, target address + Write bit received, ACK transmitted.
    ArbitrationLostTargetWrite,
    /// General call address received, ACK transmitted.
    GeneralCall,
    /// Arbitration lost in the address as controller, General Call address transmitted, ACK received.
    ArbitrationLostGeneralCall,
    /// Data byte received after target address received, ACK transmitted.
    TargetRxDataAcked,
    /// Data byte received after target address received, no ACK transmitted.
    TargetRxDataNacked,
    /// Data byte received after General Call received, ACK transmitted.
    GeneralCallRxDataAcked,
    /// Data byte received after General Call received, no ACK transmitted.
    GeneralCallRxDataNacked,
    /// STOP or repeated START condition received in target mode.
    TargetStopOrRepeatedStart,
    /// Target address + Read bit received, ACK transmitted.
    TargetAddrReadAcked,
    /// Arbitration lost in address as controller, target address + Read bit received, ACK transmitted.
    ArbitrationLostTargetRead,
    /// Data byte transmitted in target mode, ACK received.
    TargetTxDataAcked,
    /// Data byte transmitted in target mode, ACK not received.
    TargetTxDataNacked,
    /// Last data byte transmitted in target mode, ACK received.
    TargetTxLastDataAcked,
    /// Second Address byte + Write bit transmitted, ACK received.
    Addr2WriteAcked,
    /// Second Address byte + Write bit transmitted, ACK not received.
    Addr2WriteNacked,
    /// No relevant status information, `INT_FLAG` = 0.
    NoStatus,
}

/// The register value of each status.
pub open spec fn status_code(s: TwiStatus) -> u8 {
    match s {
        TwiStatus::BusError => 0x00,
        TwiStatus::StartTransmitted => 0x08,
        TwiStatus::RepeatedStartTransmitted => 0x10,
        TwiStatus::Addr1WriteAcked => 0x18,
        TwiStatus::Addr1WriteNacked => 0x20,
        TwiStatus::TxDataAcked => 0x28,
        TwiStatus::TxDataNacked => 0x30,
        TwiStatus::ArbitrationLost => 0x38,
        TwiStatus::Addr1ReadAcked => 0x40,
        TwiStatus::Addr1ReadNacked => 0x48,
        TwiStatus::RxDataAcked => 0x50,
        TwiStatus::RxDataNacked => 0x58,
        TwiStatus::TargetAddrWriteAcked => 0x60,
        TwiStatus::ArbitrationLostTargetWrite => 0x68,
        TwiStatus::GeneralCall => 0x70,
        TwiStatus::ArbitrationLostGeneralCall => 0x78,
        TwiStatus::TargetRxDataAcked => 0x80,
        TwiStatus::TargetRxDataNacked => 0x88,
        TwiStatus::GeneralCallRxDataAcked => 0x90,
        TwiStatus::GeneralCallRxDataNacked => 0x98,
        TwiStatus::TargetStopOrRepeatedStart => 0xa0,
        TwiStatus::TargetAddrReadAcked => 0xa8,
        TwiStatus::ArbitrationLostTargetRead => 0xb0,
        TwiStatus::TargetTxDataAcked => 0xb8,
        TwiStatus::TargetTxDataNacked => 0xc0,
        TwiStatus::TargetTxLastDataAcked => 0xc8,
        TwiStatus::Addr2WriteAcked => 0xd0,
        TwiStatus::Addr2WriteNacked => 0xd8,
        TwiStatus::NoStatus => 0xf8,
    }
}

/// The status, if any, that a `TWI_STAT` value names.
pub open spec fn status_of(b: u8) -> Option<TwiStatus> {
    match b {
        0x00 => Some(TwiStatus::BusError),
        0x08 => Some(TwiStatus::StartTransmitted),
        0x10 => Some(TwiStatus::RepeatedStartTransmitted),
        0x18 => Some(TwiStatus::Addr1WriteAcked),
        0x20 => Some(TwiStatus::Addr1WriteNacked),
        0x28 => Some(TwiStatus::TxDataAcked),
        0x30 => Some(TwiStatus::TxDataNacked),
        0x38 => Some(TwiStatus::ArbitrationLost),
        0x40 => Some(TwiStatus::Addr1ReadAcked),
        0x48 => Some(TwiStatus::Addr1ReadNacked),
        0x50 => Some(TwiStatus::RxDataAcked),
        0x58 => Some(TwiStatus::RxDataNacked),
        0x60 => Some(TwiStatus::TargetAddrWriteAcked),
        0x68 => Some(TwiStatus::ArbitrationLostTargetWrite),
        0x70 => Some(TwiStatus::GeneralCall),
        0x78 => Some(TwiStatus::ArbitrationLostGeneralCall),
        0x80 => Some(TwiStatus::TargetRxDataAcked),
        0x88 => Some(TwiStatus::TargetRxDataNacked),
        0x90 => Some(TwiStatus::GeneralCallRxDataAcked),
        0x98 => Some(TwiStatus::GeneralCallRxDataNacked),
        0xa0 => Some(TwiStatus::TargetStopOrRepeatedStart),
        0xa8 => Some(TwiStatus::TargetAddrReadAcked),
        0xb0 => Some(TwiStatus::ArbitrationLostTargetRead),
        0xb8 => Some(TwiStatus::TargetTxDataAcked),
        0xc0 => Some(TwiStatus::TargetTxDataNacked),
        0xc8 => Some(TwiStatus::TargetTxLastDataAcked),
        0xd0 => Some(TwiStatus::Addr2WriteAcked),
        0xd8 => Some(TwiStatus::Addr2WriteNacked),
        0xf8 => Some(TwiStatus::NoStatus),
        _ => None,
    }
}

/// The message carried by an unknown status value.
pub open spec fn status_error() -> Seq<char> {
    "invalid value for Status: expected one of [0x00, 0x08, 0x10, 0x18, 0x20, 0x28, 0x30, 0x38, 0x40, 0x48, 0x50, 0x58, 0x60, 0x68, 0x70, 0x78, 0x80, 0x88, 0x90, 0x98, 0xA0, 0xA8, 0xB0, 0xB8, 0xC0, 0xC8, 0xD0, 0xD8, 0xF8, ]"@
}

/// The error that a status reports when it arrives where the state machine
/// does not expect it.
pub open spec fn status_error_kind(s: TwiStatus) -> I2cErrorKind {
    match s {
        TwiStatus::ArbitrationLost
        | TwiStatus::ArbitrationLostGeneralCall
        | TwiStatus::ArbitrationLostTargetRead
        | TwiStatus::ArbitrationLostTargetWrite => I2cErrorKind::ArbitrationLoss,
        TwiStatus::BusError => I2cErrorKind::Bus,
        TwiStatus::Addr1WriteNacked | TwiStatus::Addr1ReadNacked | TwiStatus::Addr2WriteNacked =>
            I2cErrorKind::NoAcknowledge(NoAcknowledgeSource::Address),
        TwiStatus::TxDataNacked | TwiStatus::TargetTxDataNacked =>
            I2cErrorKind::NoAcknowledge(NoAcknowledgeSource::Data),
        _ => I2cErrorKind::Other,
    }
}

impl TwiStatus {
    /// The `TWI_STAT` value of this status.
    pub fn code(&self) -> (r: u8)
        ensures
            r == status_code(*self),
    {
        match self {
            TwiStatus::BusError => 0x00,
            TwiStatus::StartTransmitted => 0x08,
            TwiStatus::RepeatedStartTransmitted => 0x10,
            TwiStatus::Addr1WriteAcked => 0x18,
            TwiStatus::Addr1WriteNacked => 0x20,
            TwiStatus::TxDataAcked => 0x28,
            TwiStatus::TxDataNacked => 0x30,
            TwiStatus::ArbitrationLost => 0x38,
            TwiStatus::Addr1ReadAcked => 0x40,
            TwiStatus::Addr1ReadNacked => 0x48,
            TwiStatus::RxDataAcked => 0x50,
            TwiStatus::RxDataNacked => 0x58,
            TwiStatus::TargetAddrWriteAcked => 0x60,
            TwiStatus::ArbitrationLostTargetWrite => 0x68,
            TwiStatus::GeneralCall => 0x70,
            TwiStatus::ArbitrationLostGeneralCall => 0x78,
            TwiStatus::TargetRxDataAcked => 0x80,
            TwiStatus::TargetRxDataNacked => 0x88,
            TwiStatus::GeneralCallRxDataAcked => 0x90,
            TwiStatus::GeneralCallRxDataNacked => 0x98,
            TwiStatus::TargetStopOrRepeatedStart => 0xa0,
            TwiStatus::TargetAddrReadAcked => 0xa8,
            TwiStatus::ArbitrationLostTargetRead => 0xb0,
            TwiStatus::TargetTxDataAcked => 0xb8,
            TwiStatus::TargetTxDataNacked => 0xc0,
            TwiStatus::TargetTxLastDataAcked => 0xc8,
            TwiStatus::Addr2WriteAcked => 0xd0,
            TwiStatus::Addr2WriteNacked => 0xd8,
            TwiStatus::NoStatus => 0xf8,
        }
    }

    /// Decodes a `TWI_STAT` value.
    pub fn try_from(value: u8) -> (r: Result<TwiStatus, &'static str>)
        ensures
            match status_of(value) {
                Some(s) => r == Ok::<TwiStatus, &'static str>(s),
                None => r.is_err() && r->Err_0@ == status_error(),
            },
    {
        match value {
            0x00 => Ok(TwiStatus::BusError),
            0x08 => Ok(TwiStatus::StartTransmitted),
            0x10 => Ok(TwiStatus::RepeatedStartTransmitted),
            0x18 => Ok(TwiStatus::Addr1WriteAcked),
            0x20 => Ok(TwiStatus::Addr1WriteNacked),
            0x28 => Ok(TwiStatus::TxDataAcked),
            0x30 => Ok(TwiStatus::TxDataNacked),
            0x38 => Ok(TwiStatus::ArbitrationLost),
            0x40 => Ok(TwiStatus::Addr1ReadAcked),
            0x48 => Ok(TwiStatus::Addr1ReadNacked),
            0x50 => Ok(TwiStatus::RxDataAcked),
            0x58 => Ok(TwiStatus::RxDataNacked),
            0x60 => Ok(TwiStatus::TargetAddrWriteAcked),
            0x68 => Ok(TwiStatus::ArbitrationLostTargetWrite),
            0x70 => Ok(TwiStatus::GeneralCall),
            0x78 => Ok(TwiStatus::ArbitrationLostGeneralCall),
            0x80 => Ok(TwiStatus::TargetRxDataAcked),
            0x88 => Ok(TwiStatus::TargetRxDataNacked),
            0x90 => Ok(TwiStatus::GeneralCallRxDataAcked),
            0x98 => Ok(TwiStatus::GeneralCallRxDataNacked),
            0xa0 => Ok(TwiStatus::TargetStopOrRepeatedStart),
            0xa8 => Ok(TwiStatus::TargetAddrReadAcked),
            0xb0 => Ok(TwiStatus::ArbitrationLostTargetRead),
            0xb8 => Ok(TwiStatus::TargetTxDataAcked),
            0xc0 => Ok(TwiStatus::TargetTxDataNacked),
            0xc8 => Ok(TwiStatus::TargetTxLastDataAcked),
            0xd0 => Ok(TwiStatus::Addr2WriteAcked),
            0xd8 => Ok(TwiStatus::Addr2WriteNacked),
            0xf8 => Ok(TwiStatus::NoStatus),
            _ => Err("invalid value for Status: expected one of [0x00, 0x08, 0x10, 0x18, 0x20, 0x28, 0x30, 0x38, 0x40, 0x48, 0x50, 0x58, 0x60, 0x68, 0x70, 0x78, 0x80, 0x88, 0x90, 0x98, 0xA0, 0xA8, 0xB0, 0xB8, 0xC0, 0xC8, 0xD0, 0xD8, 0xF8, ]"),
        }
    }

    /// The error reported when this status arrives unexpectedly.
    pub fn into_error(self) -> (r: I2cErrorKind)
        ensures
            r == status_error_kind(self),
    {
        match self {
            TwiStatus::ArbitrationLost
            | TwiStatus::ArbitrationLostGeneralCall
            | TwiStatus::ArbitrationLostTargetRead
            | TwiStatus::ArbitrationLostTargetWrite => I2cErrorKind::ArbitrationLoss,
            TwiStatus::BusError => I2cErrorKind::Bus,
            TwiStatus::Addr1WriteNacked | TwiStatus::Addr1ReadNacked | TwiStatus::Addr2WriteNacked => {
                I2cErrorKind::NoAcknowledge(NoAcknowledgeSource::Address)
            },
            TwiStatus::TxDataNacked | TwiStatus::TargetTxDataNacked => {
                I2cErrorKind::NoAcknowledge(NoAcknowledgeSource::Data)
            },
            _ => I2cErrorKind::Other,
        }
    }
}


/// The states of the TWI driver.
#[derive(Copy, Clone, Debug, PartialEq, Eq, Structural)]
pub enum TwiState {
    Idle,
    /// Waiting for a `START` condition to be sent.
    WaitForStart(Addr),
    /// Waiting for a repeated `START`.
    WaitForRestart(Addr),
    /// Waiting for the target device to `ACK` the first 7 bits of an address.
    WaitForAddr1Ack(Addr),
    /// Waiting for the target device to `ACK` the second half of a 10-bit address.
    WaitForAddr2Ack(Addr),
    /// Waiting for the target device to `ACK` a data byte.
    WaitForAck(Addr),
    /// Waiting for the target device to send a data byte.
    WaitForData(Addr),
}

/// The operation in flight.
///
/// A write sends `buf[..len]`, `pos` counting the bytes already sent. A read
/// appends `len` bytes to `buf`, which holds at most `capacity` bytes, `read`
/// counting the bytes received. `end` marks the last operation of a
/// transaction, which is followed by a `STOP` rather than a repeated `START`.
pub enum TwiOp {
    Write { buf: Vec<u8>, pos: usize, len: usize, end: bool },
    Read { buf: Vec<u8>, capacity: usize, len: usize, read: usize, end: bool },
    NoOp,
}

/// The state shared between the TWI driver task and its interrupt handler.
pub struct TwiData {
    pub state: TwiState,
    pub op: TwiOp,
    pub err: Option<I2cErrorKind>,
    /// Whether the driver task has registered a waker.
    pub has_waker: bool,
}

/// Bits that an interrupt sets in `TWI_CNTR` (besides `INT_FLAG`, which is
/// always written back to clear the interrupt).
#[derive(Copy, Clone, Debug, PartialEq, Eq, Structural)]
pub struct CntrUpdate {
    /// Set `M_STP`: send a `STOP`.
    pub stop: bool,
    /// Set `M_STA`: send a (repeated) `START`.
    pub start: bool,
    /// Clear `A_ACK`: do not acknowledge the next received byte.
    pub clear_ack: bool,
    /// Clear `INT_EN`: hold further interrupts until the driver task runs.
    pub disable_int: bool,
}

/// What the interrupt handler does to the hardware and the driver task.
#[derive(Copy, Clone, Debug, PartialEq, Eq, Structural)]
pub struct IsrActions {
    /// A byte to write to `TWI_DATA`.
    pub data_write: Option<u8>,
    pub cntr: CntrUpdate,
    /// Whether the driver task's waker is woken.
    pub wake: bool,
}

/// The kinds of transition the interrupt handler makes.
#[derive(Copy, Clone, Debug, PartialEq, Eq, Structural)]
pub enum TwiStep {
    /// An interrupt while idle: send a `STOP`.
    WhileIdle,
    /// A (repeated) `START` went out: send the address.
    SendAddress,
    /// The address of a write was acknowledged: send the first byte.
    WriteFirst,
    /// The address of a read was acknowledged: wait for data.
    ReadAddressAcked,
    /// A byte of a read arrived.
    ReceiveByte,
    /// A byte of a write was acknowledged.
    ByteAcked,
    /// Any other status: an error.
    Unexpected,
}

/// Which transition a status causes in a state.
pub open spec fn step_kind(st: TwiState, s: TwiStatus) -> TwiStep {
    match (st, s) {
        (TwiState::Idle, _) => TwiStep::WhileIdle,
        (TwiState::WaitForStart(_), TwiStatus::StartTransmitted) => TwiStep::SendAddress,
        (TwiState::WaitForRestart(_), TwiStatus::RepeatedStartTransmitted) => TwiStep::SendAddress,
        (TwiState::WaitForAddr1Ack(Addr::SevenBit(_)), TwiStatus::Addr1WriteAcked) => TwiStep::WriteFirst,
        (TwiState::WaitForAddr1Ack(Addr::SevenBit(_)), TwiStatus::Addr1ReadAcked) => TwiStep::ReadAddressAcked,
        (TwiState::WaitForData(_), TwiStatus::RxDataAcked) => TwiStep::ReceiveByte,
        (TwiState::WaitForData(_), TwiStatus::RxDataNacked) => TwiStep::ReceiveByte,
        (TwiState::WaitForAck(_), TwiStatus::TxDataAcked) => TwiStep::ByteAcked,
        _ => TwiStep::Unexpected,
    }
}

/// The address a non-idle state is talking to.
pub open spec fn state_addr(st: TwiState) -> Addr {
    match st {
        TwiState::Idle => Addr::SevenBit(0),
        TwiState::WaitForStart(a) => a,
        TwiState::WaitForRestart(a) => a,
        TwiState::WaitForAddr1Ack(a) => a,
        TwiState::WaitForAddr2Ack(a) => a,
        TwiState::WaitForAck(a) => a,
        TwiState::WaitForData(a) => a,
    }
}

/// The address byte sent for a 7-bit address: the address in the upper
/// seven bits, the lowest bit 1 for a read and 0 for a write.
pub open spec fn address_byte(addr: u8, read: bool) -> u8 {
    (((addr & 0x7f) << 1u8) | (if read { 1u8 } else { 0u8 })) as u8
}

/// The state after an operation completes: `STOP` and idle at the end of the
/// transaction, otherwise a repeated `START` for the same address.
pub open spec fn completed_state(end: bool, addr: Addr) -> TwiState {
    if end {
        TwiState::Idle
    } else {
        TwiState::WaitForRestart(addr)
    }
}

impl TwiData {
    /// The inputs on which the interrupt handler is defined: ten-bit
    /// addresses are not implemented, a status that only a read (write) can
    /// cause must find a read (write) in flight, a write must have a byte to
    /// send, and a read must have room for the byte it receives.
    pub open spec fn isr_defined(&self, s: TwiStatus) -> bool {
        match step_kind(self.state, s) {
            TwiStep::SendAddress => state_addr(self.state) is SevenBit,
            TwiStep::WriteFirst => match self.op {
                TwiOp::Write { buf, pos, .. } => buf.len() > 0 && pos < usize::MAX,
                _ => false,
            },
            TwiStep::ReadAddressAcked => self.op is Read,
            TwiStep::ReceiveByte => match self.op {
                TwiOp::Read { buf, capacity, len, read, .. } => buf.len() < capacity && read < len,
                _ => false,
            },
            TwiStep::ByteAcked => match self.op {
                TwiOp::Write { buf, pos, len, .. } => pos == len || pos < buf.len(),
                _ => false,
            },
            _ => true,
        }
    }

    /// Whether the interrupt for status `s` completes the operation (or
    /// fails it), so that the driver task must be woken.
    pub open spec fn completes(&self, s: TwiStatus) -> bool {
        match step_kind(self.state, s) {
            TwiStep::ReceiveByte => self.op->Read_read + 1 >= self.op->Read_len,
            TwiStep::ByteAcked => self.op->Write_pos == self.op->Write_len,
            TwiStep::Unexpected => true,
            _ => false,
        }
    }

    /// Whether the interrupt handler needs the byte in `TWI_DATA` for status
    /// `status_byte`: only when a read is waiting for data.
    pub fn wants_rx_byte(&self, status_byte: u8) -> (r: bool)
        ensures
            r == (status_of(status_byte) is Some && step_kind(self.state, status_of(status_byte)->0)
                == TwiStep::ReceiveByte),
    {
        match self.state {
            TwiState::WaitForData(_) => status_byte == 0x50 || status_byte == 0x58,
            _ => false,
        }
    }

    /// Handles a TWI interrupt with `status_byte` read from `TWI_STAT` and,
    /// when a byte is being received, `rx_data` read from `TWI_DATA`.
    ///
    /// An unknown status changes nothing and writes no register (`None`).
    pub fn advance_isr(&mut self, status_byte: u8, rx_data: u8) -> (r: Option<IsrActions>)
        requires
            status_of(status_byte) is Some ==> old(self).isr_defined(status_of(status_byte)->0),
        ensures
            status_of(status_byte) is None ==> r is None && *final(self) == *old(self),
            status_of(status_byte) is Some ==> r is Some && isr_post(
                *old(self),
                *final(self),
                status_of(status_byte)->0,
                rx_data,
                r->0,
            ),
    {
        let status = match TwiStatus::try_from(status_byte) {
            Ok(s) => s,
            Err(_) => return None,
        };
        let ghost old_self = *self;
        let mut op = TwiOp::NoOp;
        core::mem::swap(&mut op, &mut self.op);
        let mut stop = false;
        let mut start = false;
        let mut clear_ack = false;
        let mut data_write: Option<u8> = None;
        let mut needs_wake = false;
        let (new_state, new_op) = match (self.state, status) {
            (TwiState::Idle, _) => {
                stop = true;
                (TwiState::Idle, op)
            },
            (TwiState::WaitForStart(addr), TwiStatus::StartTransmitted)
            | (TwiState::WaitForRestart(addr), TwiStatus::RepeatedStartTransmitted) => {
                let dir: u8 = match op {
                    TwiOp::Read { .. } => 1,
                    _ => 0,
                };
                let a = match addr {
                    Addr::SevenBit(a) => a,
                    Addr::TenBit(_) => 0,  // excluded by the precondition
                };
                data_write = Some(((a & 0x7f) << 1u8) | dir);
                (TwiState::WaitForAddr1Ack(addr), op)
            },
            (TwiState::WaitForAddr1Ack(Addr::SevenBit(addr)), TwiStatus::Addr1WriteAcked) => {
                match op {
                    TwiOp::Write { buf, pos, len, end } => {
                        data_write = Some(buf[0]);
                        (
                            TwiState::WaitForAck(Addr::SevenBit(addr)),
                            TwiOp::Write { buf, pos: pos + 1, len, end },
                        )
                    },
                    other => (TwiState::Idle, other),  // excluded by the precondition
                }
            },
            (TwiState::WaitForAddr1Ack(Addr::SevenBit(addr)), TwiStatus::Addr1ReadAcked) => {
                if let TwiOp::Read { len, .. } = op {
                    if len == 1 {
                        clear_ack = true;
                    }
                }
                (TwiState::WaitForData(Addr::SevenBit(addr)), op)
            },
            (TwiState::WaitForData(addr), TwiStatus::RxDataAcked)
            | (TwiState::WaitForData(addr), TwiStatus::RxDataNacked) => {
                match op {
                    TwiOp::Read { mut buf, capacity, len, read, end } => {
                        buf.push(rx_data);
                        let read = read + 1;
                        let remaining = len - read;
                        if remaining < 1 {
                            clear_ack = true;
                        }
                        let st = if remaining > 0 {
                            TwiState::WaitForData(addr)
                        } else {
                            needs_wake = true;
                            if end {
                                stop = true;
                                TwiState::Idle
                            } else {
                                start = true;
                                TwiState::WaitForRestart(addr)
                            }
                        };
                        (st, TwiOp::Read { buf, capacity, len, read, end })
                    },
                    other => (TwiState::Idle, other),  // excluded by the precondition
                }
            },
            (TwiState::WaitForAck(addr), TwiStatus::TxDataAcked) => {
                match op {
                    TwiOp::Write { buf, pos, len, end } => {
                        if pos == len {
                            needs_wake = true;
                            let st = if end {
                                stop = true;
                                TwiState::Idle
                            } else {
                                start = true;
                                TwiState::WaitForRestart(addr)
                            };
                            (st, TwiOp::Write { buf, pos, len, end })
                        } else {
                            data_write = Some(buf[pos]);
                            (TwiState::WaitForAck(addr), TwiOp::Write { buf, pos: pos + 1, len, end })
                        }
                    },
                    other => (TwiState::Idle, other),  // excluded by the precondition
                }
            },
            (_, status) => {
                self.err = Some(status.into_error());
                stop = true;
                needs_wake = true;
                (TwiState::Idle, op)
            },
        };
        self.state = new_state;
        self.op = new_op;
        let wake = needs_wake && self.has_waker;
        if wake {
            self.has_waker = false;
        }
        Some(IsrActions {
            data_write,
            cntr: CntrUpdate { stop, start, clear_ack, disable_int: wake },
            wake,
        })
    }
}

/// How one interrupt relates the driver state before (`o`) and after (`n`)
/// it to the actions `a` taken, for status `s` and received byte `rx`.
pub open spec fn isr_post(o: TwiData, n: TwiData, s: TwiStatus, rx: u8, a: IsrActions) -> bool {
    let addr = state_addr(o.state);
    let wake_wanted = o.completes(s);
    &&& a.wake == (wake_wanted && o.has_waker)
    &&& a.cntr.disable_int == a.wake
    &&& n.has_waker == (o.has_waker && !wake_wanted)
    &&& n.err == (if step_kind(o.state, s) == TwiStep::Unexpected {
        Some(status_error_kind(s))
    } else {
        o.err
    })
    &&& match step_kind(o.state, s) {
        TwiStep::WhileIdle => {
            &&& n.state == TwiState::Idle
            &&& n.op == o.op
            &&& a.data_write is None
            &&& a.cntr.stop && !a.cntr.start && !a.cntr.clear_ack
        },
        TwiStep::SendAddress => {
            &&& n.state == TwiState::WaitForAddr1Ack(addr)
            &&& n.op == o.op
            &&& a.data_write == Some(address_byte(addr->SevenBit_0, o.op is Read))
            &&& !a.cntr.stop && !a.cntr.start && !a.cntr.clear_ack
        },
        TwiStep::WriteFirst => {
            &&& n.state == TwiState::WaitForAck(addr)
            &&& n.op is Write
            &&& n.op->Write_buf@ == o.op->Write_buf@
            &&& n.op->Write_pos == o.op->Write_pos + 1
            &&& n.op->Write_len == o.op->Write_len
            &&& n.op->Write_end == o.op->Write_end
            &&& a.data_write == Some(o.op->Write_buf@[0])
            &&& !a.cntr.stop && !a.cntr.start && !a.cntr.clear_ack
        },
        TwiStep::ReadAddressAcked => {
            &&& n.state == TwiState::WaitForData(addr)
            &&& n.op == o.op
            &&& a.data_write is None
            &&& !a.cntr.stop && !a.cntr.start
            &&& a.cntr.clear_ack == (o.op->Read_len == 1)
        },
        TwiStep::ReceiveByte => {
            let read = o.op->Read_read + 1;
            let done = read >= o.op->Read_len;
            &&& n.op is Read
            &&& n.op->Read_buf@ == o.op->Read_buf@.push(rx)
            &&& n.op->Read_read == read
            &&& n.op->Read_len == o.op->Read_len
            &&& n.op->Read_capacity == o.op->Read_capacity
            &&& n.op->Read_end == o.op->Read_end
            &&& a.data_write is None
            &&& a.cntr.clear_ack == done
            &&& n.state == (if done { completed_state(o.op->Read_end, addr) } else { TwiState::WaitForData(addr) })
            &&& a.cntr.stop == (done && o.op->Read_end)
            &&& a.cntr.start == (done && !o.op->Read_end)
        },
        TwiStep::ByteAcked => {
            let pos = o.op->Write_pos;
            let done = pos == o.op->Write_len;
            &&& n.op is Write
            &&& n.op->Write_buf@ == o.op->Write_buf@
            &&& n.op->Write_pos == (if done { pos } else { (pos + 1) as usize })
            &&& n.op->Write_len == o.op->Write_len
            &&& n.op->Write_end == o.op->Write_end
            &&& a.data_write == (if done { None } else { Some(o.op->Write_buf@[pos as int]) })
            &&& !a.cntr.clear_ack
            &&& n.state == (if done { completed_state(o.op->Write_end, addr) } else { TwiState::WaitForAck(addr) })
            &&& a.cntr.stop == (done && o.op->Write_end)
            &&& a.cntr.start == (done && !o.op->Write_end)
        },
        TwiStep::Unexpected => {
            &&& n.state == TwiState::Idle
            &&& n.op == o.op
            &&& a.data_write is None
            &&& a.cntr.stop && !a.cntr.start && !a.cntr.clear_ack
        },
    }
}


impl TwiOp {
    /// Well-formedness of an operation: a write never sends past its length
    /// nor its buffer; a read never receives past its length, and its buffer
    /// has room for the bytes still to come.
    pub open spec fn wf(&self) -> bool {
        match *self {
            TwiOp::Write { buf, pos, len, .. } => pos <= len && len <= buf.len(),
            TwiOp::Read { buf, capacity, len, read, .. } => read <= len && buf.len() + (len - read)
                <= capacity,
            TwiOp::NoOp => true,
        }
    }
}

impl TwiData {
    /// The driver state before any transaction: idle, nothing in flight.
    pub fn new() -> (r: TwiData)
        ensures
            r.state == TwiState::Idle,
            r.op is NoOp,
            r.err is None,
            !r.has_waker,
    {
        TwiData { state: TwiState::Idle, op: TwiOp::NoOp, err: None, has_waker: false }
    }

    /// Sets up the next operation of a transaction with `addr`: the first
    /// operation waits for a `START`, later ones for a repeated `START`.
    pub fn begin_op(&mut self, first: bool, addr: Addr, op: TwiOp)
        ensures
            final(self).state == (if first {
                TwiState::WaitForStart(addr)
            } else {
                TwiState::WaitForRestart(addr)
            }),
            final(self).op == op,
            final(self).err == old(self).err,
            final(self).has_waker == old(self).has_waker,
    {
        self.state = if first {
            TwiState::WaitForStart(addr)
        } else {
            TwiState::WaitForRestart(addr)
        };
        self.op = op;
    }

    /// Records that the driver task is waiting to be woken.
    pub fn register_waker(&mut self)
        ensures
            final(self).has_waker,
            final(self).state == old(self).state,
            final(self).op == old(self).op,
            final(self).err == old(self).err,
    {
        self.has_waker = true;
    }

    /// Collects the outcome of a finished operation: the recorded error if
    /// there is one (clearing it), otherwise the operation's buffer. Either
    /// way nothing is left in flight.
    pub fn finish_op(&mut self) -> (r: Result<Vec<u8>, I2cErrorKind>)
        requires
            old(self).err is Some || !(old(self).op is NoOp),
        ensures
            match old(self).err {
                Some(e) => r == Err::<Vec<u8>, I2cErrorKind>(e) && final(self).op == old(self).op,
                None => r is Ok && final(self).op is NoOp && r->Ok_0@ == match old(self).op {
                    TwiOp::Write { buf, .. } => buf@,
                    TwiOp::Read { buf, .. } => buf@,
                    TwiOp::NoOp => Seq::empty(),
                },
            },
            final(self).err is None,
            final(self).state == old(self).state,
            final(self).has_waker == old(self).has_waker,
    {
        if let Some(error) = self.err.take() {
            return Err(error);
        }
        let mut op = TwiOp::NoOp;
        core::mem::swap(&mut op, &mut self.op);
        match op {
            TwiOp::Read { buf, .. } => Ok(buf),
            TwiOp::Write { buf, .. } => Ok(buf),
            TwiOp::NoOp => Ok(Vec::new()),  // excluded by the precondition
        }
    }
}

/// Every interrupt keeps the operation in flight well formed, provided a
/// write whose address was acknowledged still has a byte to send.
pub proof fn lemma_isr_keeps_op_wf(o: TwiData, n: TwiData, s: TwiStatus, rx: u8, a: IsrActions)
    requires
        o.op.wf(),
        o.isr_defined(s),
        isr_post(o, n, s, rx, a),
        step_kind(o.state, s) == TwiStep::WriteFirst ==> o.op->Write_pos < o.op->Write_len,
    ensures
        n.op.wf(),
{
}

/// A read that still expects bytes and has room for them can always take the
/// next one.
pub proof fn lemma_wf_read_can_receive(d: TwiData, s: TwiStatus)
    requires
        d.op.wf(),
        d.op is Read,
        d.op->Read_read < d.op->Read_len,
        step_kind(d.state, s) == TwiStep::ReceiveByte,
    ensures
        d.isr_defined(s),
{
}

/// The status each state waits for: a `START` (or repeated `START`) when
/// one was requested, the address acknowledged (for a read or a write) after
/// the address went out, a byte received while reading, and the byte
/// acknowledged while writing.
pub open spec fn awaited(st: TwiState, s: TwiStatus) -> bool {
    match st {
        TwiState::WaitForStart(_) => s == TwiStatus::StartTransmitted,
        TwiState::WaitForRestart(_) => s == TwiStatus::RepeatedStartTransmitted,
        TwiState::WaitForAddr1Ack(_) => s == TwiStatus::Addr1WriteAcked || s == TwiStatus::Addr1ReadAcked,
        TwiState::WaitForData(_) => s == TwiStatus::RxDataAcked || s == TwiStatus::RxDataNacked,
        TwiState::WaitForAck(_) => s == TwiStatus::TxDataAcked,
        _ => false,
    }
}

/// A status the driver does not wait for ends the transfer with an error:
/// the driver goes idle, sends a `STOP`, writes no byte and records the
/// error: a not-acknowledged data byte as a data NACK, a not-acknowledged
/// address as an address NACK, a lost arbitration as such, and a bus error
/// as a bus error.
pub proof fn lemma_unexpected_status_fails(o: TwiData, n: TwiData, s: TwiStatus, rx: u8, a: IsrActions)
    requires
        isr_post(o, n, s, rx, a),
        !(o.state is Idle),
        !awaited(o.state, s),
    ensures
        n.state == TwiState::Idle,
        a.cntr.stop,
        !a.cntr.start,
        a.data_write is None,
        n.err is Some,
        s == TwiStatus::TxDataNacked ==> n.err == Some(I2cErrorKind::NoAcknowledge(NoAcknowledgeSource::Data)),
        s == TwiStatus::Addr1WriteNacked || s == TwiStatus::Addr1ReadNacked
            ==> n.err == Some(I2cErrorKind::NoAcknowledge(NoAcknowledgeSource::Address)),
        s == TwiStatus::ArbitrationLost ==> n.err == Some(I2cErrorKind::ArbitrationLoss),
        s == TwiStatus::BusError ==> n.err == Some(I2cErrorKind::Bus),
{
}

/// Only an acknowledged byte moves a write on: in the state that waits for
/// a data byte's `ACK`, the interrupt sends the next byte or completes the
/// write when, and only when, the status is [`TwiStatus::TxDataAcked`].
pub proof fn lemma_write_advances_only_on_ack(o: TwiData, n: TwiData, s: TwiStatus, rx: u8, a: IsrActions)
    requires
        isr_post(o, n, s, rx, a),
        o.state is WaitForAck,
    ensures
        (n.err == o.err && (a.data_write is Some || o.op->Write_pos == o.op->Write_len)) <== s == TwiStatus::TxDataAcked,
        s != TwiStatus::TxDataAcked ==> n.state == TwiState::Idle && a.data_write is None && n.err is Some,
{
}

/// The `TWI_STAT` codes are those of the D1 manual: multiples of 8 from
/// `0x00` (bus error) to `0xd8` (second address byte not acknowledged), and
/// `0xf8` when there is no status.
pub proof fn lemma_status_codes()
    ensures
        status_code(TwiStatus::BusError) == 0x00,
        status_code(TwiStatus::StartTransmitted) == 0x08,
        status_code(TwiStatus::RepeatedStartTransmitted) == 0x10,
        status_code(TwiStatus::Addr1WriteAcked) == 0x18,
        status_code(TwiStatus::Addr1WriteNacked) == 0x20,
        status_code(TwiStatus::TxDataAcked) == 0x28,
        status_code(TwiStatus::TxDataNacked) == 0x30,
        status_code(TwiStatus::ArbitrationLost) == 0x38,
        status_code(TwiStatus::Addr1ReadAcked) == 0x40,
        status_code(TwiStatus::Addr1ReadNacked) == 0x48,
        status_code(TwiStatus::RxDataAcked) == 0x50,
        status_code(TwiStatus::RxDataNacked) == 0x58,
        status_code(TwiStatus::TargetAddrWriteAcked) == 0x60,
        status_code(TwiStatus::ArbitrationLostTargetWrite) == 0x68,
        status_code(TwiStatus::GeneralCall) == 0x70,
        status_code(TwiStatus::ArbitrationLostGeneralCall) == 0x78,
        status_code(TwiStatus::TargetRxDataAcked) == 0x80,
        status_code(TwiStatus::TargetRxDataNacked) == 0x88,
        status_code(TwiStatus::GeneralCallRxDataAcked) == 0x90,
        status_code(TwiStatus::GeneralCallRxDataNacked) == 0x98,
        status_code(TwiStatus::TargetStopOrRepeatedStart) == 0xa0,
        status_code(TwiStatus::TargetAddrReadAcked) == 0xa8,
        status_code(TwiStatus::ArbitrationLostTargetRead) == 0xb0,
        status_code(TwiStatus::TargetTxDataAcked) == 0xb8,
        status_code(TwiStatus::TargetTxDataNacked) == 0xc0,
        status_code(TwiStatus::TargetTxLastDataAcked) == 0xc8,
        status_code(TwiStatus::Addr2WriteAcked) == 0xd0,
        status_code(TwiStatus::Addr2WriteNacked) == 0xd8,
        status_code(TwiStatus::NoStatus) == 0xf8,
{
}

/// Status codes decode back to the status they came from.
pub proof fn lemma_status_code_roundtrip(s: TwiStatus)
    ensures
        status_of(status_code(s)) == Some(s),
{
}

/// The status of interrupt `i` of a write that goes through without error:
/// the `START`, the acknowledged address, then one acknowledged byte after
/// another.
pub open spec fn write_status(i: int) -> TwiStatus {
    if i == 0 {
        TwiStatus::StartTransmitted
    } else if i == 1 {
        TwiStatus::Addr1WriteAcked
    } else {
        TwiStatus::TxDataAcked
    }
}

/// The interrupts of a write of `len` bytes of `buf` to the seven-bit address
/// `a`, from its `START` on: `ds` are the driver states between them and
/// `acts` what each interrupt did.
pub open spec fn write_run(ds: Seq<TwiData>, acts: Seq<IsrActions>, a: u8, buf: Seq<u8>, len: usize, end: bool) -> bool {
    &&& 1 <= len <= buf.len()
    &&& ds.len() == len + 3
    &&& acts.len() == len + 2
    &&& ds[0].state == TwiState::WaitForStart(Addr::SevenBit(a))
    &&& ds[0].op is Write
    &&& ds[0].op->Write_buf@ == buf
    &&& ds[0].op->Write_pos == 0
    &&& ds[0].op->Write_len == len
    &&& ds[0].op->Write_end == end
    &&& forall|i: int| #![trigger acts[i]] 0 <= i < len + 2 ==> isr_post(ds[i], ds[i + 1], write_status(i), 0u8, acts[i])
}

proof fn lemma_write_steps(ds: Seq<TwiData>, acts: Seq<IsrActions>, a: u8, buf: Seq<u8>, len: usize, end: bool, j: int)
    requires
        write_run(ds, acts, a, buf, len, end),
        2 <= j <= len + 1,
    ensures
        ds[j].state == TwiState::WaitForAck(Addr::SevenBit(a)),
        ds[j].op is Write,
        ds[j].op->Write_buf@ == buf,
        ds[j].op->Write_pos == j - 1,
        ds[j].op->Write_len == len,
        ds[j].op->Write_end == end,
        acts[0].data_write == Some(address_byte(a, false)),
        forall|k: int| 1 <= k < j ==> #[trigger] acts[k].data_write == Some(buf[k - 1]),
    decreases j,
{
    assert(isr_post(ds[0], ds[1], write_status(0), 0u8, acts[0]));
    assert(isr_post(ds[1], ds[2], write_status(1), 0u8, acts[1]));
    if j > 2 {
        lemma_write_steps(ds, acts, a, buf, len, end, j - 1);
        assert(isr_post(ds[j - 1], ds[j], write_status(j - 1), 0u8, acts[j - 1]));
    }
}

/// A write goes out as it should: the interrupts of a write that goes
/// through without error send the address byte (with the write bit), then
/// the buffer's bytes in order, and after the last byte is acknowledged they
/// send a `STOP` (at the end of the transaction) or a repeated `START`, and
/// the driver is idle or waits for that `START`.
pub proof fn lemma_write_sends_buffer(ds: Seq<TwiData>, acts: Seq<IsrActions>, a: u8, buf: Seq<u8>, len: usize, end: bool)
    requires
        write_run(ds, acts, a, buf, len, end),
    ensures
        acts[0].data_write == Some(address_byte(a, false)),
        forall|k: int| 0 <= k < len ==> #[trigger] acts[k + 1].data_write == Some(buf[k]),
        acts[len + 1].data_write is None,
        acts[len + 1].cntr.stop == end,
        acts[len + 1].cntr.start == !end,
        ds[len + 2].state == completed_state(end, Addr::SevenBit(a)),
{
    lemma_write_steps(ds, acts, a, buf, len, end, len + 1);
    assert(isr_post(ds[len + 1], ds[len + 2], write_status(len + 1), 0u8, acts[len + 1]));
    assert forall|k: int| 0 <= k < len implies #[trigger] acts[k + 1].data_write == Some(buf[k]) by {
        assert(acts[(k + 1)].data_write == Some(buf[(k + 1) - 1]));
    }
}

/// The status of interrupt `i` of a read that goes through without error:
/// the `START`, the acknowledged address, then one received byte after
/// another.
pub open spec fn read_status(i: int) -> TwiStatus {
    if i == 0 {
        TwiStatus::StartTransmitted
    } else if i == 1 {
        TwiStatus::Addr1ReadAcked
    } else {
        TwiStatus::RxDataAcked
    }
}

/// The interrupts of a read of `len` bytes from the seven-bit address `a`
/// into a buffer holding `buf`, from its `START` on: `ds` are the driver
/// states between them, `acts` what each interrupt did, and `rxs` the bytes
/// in `TWI_DATA` at each.
pub open spec fn read_run(ds: Seq<TwiData>, acts: Seq<IsrActions>, rxs: Seq<u8>, a: u8, buf: Seq<u8>, len: usize, end: bool) -> bool {
    &&& 1 <= len
    &&& ds.len() == len + 3
    &&& acts.len() == len + 2
    &&& rxs.len() == len + 2
    &&& ds[0].state == TwiState::WaitForStart(Addr::SevenBit(a))
    &&& ds[0].op is Read
    &&& ds[0].op->Read_buf@ == buf
    &&& ds[0].op->Read_read == 0
    &&& ds[0].op->Read_len == len
    &&& ds[0].op->Read_end == end
    &&& forall|i: int| #![trigger acts[i]] 0 <= i < len + 2 ==> isr_post(ds[i], ds[i + 1], read_status(i), rxs[i], acts[i])
}

proof fn lemma_read_steps(ds: Seq<TwiData>, acts: Seq<IsrActions>, rxs: Seq<u8>, a: u8, buf: Seq<u8>, len: usize, end: bool, j: int)
    requires
        read_run(ds, acts, rxs, a, buf, len, end),
        2 <= j <= len + 1,
    ensures
        ds[j].state == TwiState::WaitForData(Addr::SevenBit(a)),
        ds[j].op is Read,
        ds[j].op->Read_buf@ == buf + rxs.subrange(2, j),
        ds[j].op->Read_read == j - 2,
        ds[j].op->Read_len == len,
        ds[j].op->Read_end == end,
        forall|k: int| 0 <= k < j ==> #[trigger] acts[k].data_write == (if k == 0 { Some(address_byte(a, true)) } else { None }),
    decreases j,
{
    assert(isr_post(ds[0], ds[1], read_status(0), rxs[0], acts[0]));
    assert(isr_post(ds[1], ds[2], read_status(1), rxs[1], acts[1]));
    if j > 2 {
        lemma_read_steps(ds, acts, rxs, a, buf, len, end, j - 1);
        assert(isr_post(ds[j - 1], ds[j], read_status(j - 1), rxs[j - 1], acts[j - 1]));
        assert(buf + rxs.subrange(2, j) == (buf + rxs.subrange(2, j - 1)).push(rxs[j - 1]));
    } else {
        assert(rxs.subrange(2, 2) == Seq::<u8>::empty());
        assert(buf + rxs.subrange(2, 2) == buf);
    }
}

/// A read comes in as it should: the interrupts of a read that goes through
/// without error send the address byte (with the read bit) and nothing
/// else, append the received bytes to the buffer in order, stop
/// acknowledging at the last byte, and then send a `STOP` (at the end of the
/// transaction) or a repeated `START`.
pub proof fn lemma_read_receives_bytes(ds: Seq<TwiData>, acts: Seq<IsrActions>, rxs: Seq<u8>, a: u8, buf: Seq<u8>, len: usize, end: bool)
    requires
        read_run(ds, acts, rxs, a, buf, len, end),
    ensures
        acts[0].data_write == Some(address_byte(a, true)),
        forall|k: int| 1 <= k < len + 2 ==> #[trigger] acts[k].data_write is None,
        ds[len + 2].op is Read,
        ds[len + 2].op->Read_buf@ == buf + rxs.subrange(2, len + 2),
        acts[len + 1].cntr.clear_ack,
        acts[len + 1].cntr.stop == end,
        acts[len + 1].cntr.start == !end,
        ds[len + 2].state == completed_state(end, Addr::SevenBit(a)),
{
    lemma_read_steps(ds, acts, rxs, a, buf, len, end, len + 1);
    assert(isr_post(ds[len + 1], ds[len + 2], read_status(len + 1), rxs[len + 1], acts[len + 1]));
    assert(buf + rxs.subrange(2, len + 2) == (buf + rxs.subrange(2, len + 1)).push(rxs[len + 1]));
    assert forall|k: int| 1 <= k < len + 2 implies #[trigger] acts[k].data_write is None by {
        if k < len + 1 {
            assert(acts[k].data_write == (if k == 0 { Some(address_byte(a, true)) } else { None::<u8> }));
        }
    }
}

} // verus!
