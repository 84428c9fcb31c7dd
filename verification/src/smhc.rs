//! The SD/MMC host controller (SMHC) driver's decisions: which error an
//! interrupt reports, how the interrupt state machine advances, how a
//! command is encoded, and how its data buffer is split into a chain of
//! IDMAC descriptors.
use vstd::prelude::*;

pub mod idmac;

use self::idmac::{with_flag, CFG_CHAIN_MOD, CFG_DES_OWN, CFG_FIRST, CFG_INT_DIS, CFG_LAST};

verus! {

/// The different errors that an SMHC transfer can end with.
#[derive(Debug, Copy, Clone, PartialEq, Eq, Structural)]
pub enum ErrorKind {
    /// A transmit bit error, end bit error, or CMD index error has occurred.
    Response,
    /// Invalid CRC in response.
    ResponseCrc,
    /// Data CRC error (receiving), or a negative CRC status token (transmitting).
    DataCrc,
    /// Did not receive a response in time.
    ResponseTimeout,
    /// Did not receive data in time.
    DataTimeout,
    /// Data starvation detected.
    DataStarvationTimeout,
    /// FIFO underrun or overflow.
    FifoUnderrunOverflow,
    /// Command busy and illegal write.
    CommandBusyIllegalWrite,
    /// An error start bit (receiving), or busy cleared after the last block (transmitting).
    DataStart,
    /// No valid data end bit (receiving), or no CRC status token (transmitting).
    DataEnd,
    /// An error occurred in the internal DMA controller.
    Dma,
    /// A different error occurred.
    Other,
}

/// The interrupt status bits that the driver reads: the masked interrupt
/// status (`SMHC_MINTSTS`) and the IDMAC status (`SMHC_IDST`).
#[derive(Debug, Copy, Clone, PartialEq, Eq, Structural)]
pub struct IrqStatus {
    /// `M_DSTO_VSD_INT`: data starvation timeout.
    pub data_starvation_timeout: bool,
    /// `M_FU_FO_INT`: FIFO underrun/overflow.
    pub fifo_underrun_overflow: bool,
    /// `M_CB_IW_INT`: command busy and illegal write.
    pub command_busy_illegal_write: bool,
    /// `M_RTO_BACK_INT`: response timeout.
    pub response_timeout: bool,
    /// `M_RCE_INT`: response CRC error.
    pub response_crc: bool,
    /// `M_RE_INT`: response error.
    pub response_error: bool,
    /// `M_DTO_BDS_INT`: data timeout.
    pub data_timeout: bool,
    /// `M_DCE_INT`: data CRC error.
    pub data_crc: bool,
    /// `M_DSE_BC_INT`: data start error.
    pub data_start: bool,
    /// `M_DEE_INT`: data end-bit error.
    pub data_end: bool,
    /// `M_CC_INT`: command complete.
    pub command_complete: bool,
    /// `M_DTC_INT`: data transfer complete.
    pub data_transfer_complete: bool,
    /// `M_ACD_INT`: auto command done.
    pub auto_command_done: bool,
    /// `DES_UNAVL_INT`: IDMAC descriptor unavailable.
    pub descriptor_unavailable: bool,
    /// `FATAL_BERR_INT`: IDMAC fatal bus error.
    pub fatal_bus_error: bool,
    /// Whether any bit of `SMHC_IDST` is set.
    pub idmac_pending: bool,
}

/// The error reported by the DMA and data-end bits, checked last.
pub open spec fn later_error(st: IrqStatus) -> Option<ErrorKind> {
    if st.data_timeout {
        Some(ErrorKind::DataTimeout)
    } else if st.data_crc {
        Some(ErrorKind::DataCrc)
    } else if st.data_start {
        Some(ErrorKind::DataStart)
    } else if st.data_end {
        Some(ErrorKind::DataEnd)
    } else if st.descriptor_unavailable || st.fatal_bus_error {
        Some(ErrorKind::Dma)
    } else {
        None
    }
}

/// The error that an interrupt status reports, the first set bit in order of
/// priority, or `None`.
pub open spec fn status_error(st: IrqStatus) -> Option<ErrorKind> {
    if st.data_starvation_timeout {
        Some(ErrorKind::DataStarvationTimeout)
    } else if st.fifo_underrun_overflow {
        Some(ErrorKind::FifoUnderrunOverflow)
    } else if st.command_busy_illegal_write {
        Some(ErrorKind::CommandBusyIllegalWrite)
    } else if st.response_timeout {
        Some(ErrorKind::ResponseTimeout)
    } else if st.response_crc {
        Some(ErrorKind::ResponseCrc)
    } else if st.response_error {
        Some(ErrorKind::Response)
    } else {
        later_error(st)
    }
}

/// Checks the interrupt status for error bits, in order of priority.
pub fn error_status(st: &IrqStatus) -> (r: Option<ErrorKind>)
    ensures
        r == status_error(*st),
{
    if st.data_starvation_timeout {
        Some(ErrorKind::DataStarvationTimeout)
    } else if st.fifo_underrun_overflow {
        Some(ErrorKind::FifoUnderrunOverflow)
    } else if st.command_busy_illegal_write {
        Some(ErrorKind::CommandBusyIllegalWrite)
    } else if st.response_timeout {
        Some(ErrorKind::ResponseTimeout)
    } else if st.response_crc {
        Some(ErrorKind::ResponseCrc)
    } else if st.response_error {
        Some(ErrorKind::Response)
    } else if st.data_timeout {
        Some(ErrorKind::DataTimeout)
    } else if st.data_crc {
        Some(ErrorKind::DataCrc)
    } else if st.data_start {
        Some(ErrorKind::DataStart)
    } else if st.data_end {
        Some(ErrorKind::DataEnd)
    } else if st.descriptor_unavailable || st.fatal_bus_error {
        Some(ErrorKind::Dma)
    } else {
        None
    }
}

/// The SMHC interrupt state machine.
#[derive(Debug, Copy, Clone, PartialEq, Eq, Structural)]
pub enum State {
    Idle,
    /// Waiting for a command to complete.
    WaitForCommand,
    /// Waiting for the DMA operation to complete.
    WaitForDma,
    /// Waiting for the data transfer to complete.
    WaitForDataTransfer,
    /// Waiting for the auto-stop command to be sent and completed.
    WaitForAutoStop,
}

/// The operation in flight. A read or write moves `cnt` bytes through a
/// buffer that currently holds `buf_len` bytes.
#[derive(Debug, Copy, Clone, PartialEq, Eq, Structural)]
pub enum SmhcOp {
    NoOp,
    Control,
    Read { buf_len: usize, cnt: usize, auto_stop: bool },
    Write { buf_len: usize, cnt: usize, auto_stop: bool },
}

/// The state shared between the SMHC driver task and its interrupt handler.
#[derive(Debug, Copy, Clone, PartialEq, Eq, Structural)]
pub struct SmhcData {
    pub state: State,
    pub op: SmhcOp,
    pub err: Option<ErrorKind>,
    /// Whether the driver task has registered a waker.
    pub has_waker: bool,
}

/// The write-1-to-clear acknowledgement an interrupt performs.
#[derive(Debug, Copy, Clone, PartialEq, Eq, Structural)]
pub enum Acknowledge {
    Nothing,
    /// Clear `CC` in `SMHC_RINTSTS`.
    CommandComplete,
    /// Clear `NOR_INT_SUM`, `RX_INT` and `TX_INT` in `SMHC_IDST`.
    IdmacTransfer,
    /// Clear `DTC` in `SMHC_RINTSTS`.
    DataTransferComplete,
    /// Clear `ACD` in `SMHC_RINTSTS`.
    AutoCommandDone,
}

/// The value written to `SMHC_RINTSTS` to clear every raw interrupt bit.
pub const RINTSTS_CLEAR_ALL: u32 = 0xFFFF_FFFF;

/// The value written to `SMHC_IDST` to clear every IDMAC status bit.
pub const IDST_CLEAR_ALL: u32 = 0x3FF;

/// What an SMHC interrupt does besides updating the shared state.
#[derive(Debug, Copy, Clone, PartialEq, Eq, Structural)]
pub struct IsrActions {
    /// Whether every interrupt bit is cleared first, because the interrupt
    /// reported an error: all of `SMHC_RINTSTS` (written `0xFFFF_FFFF`) and
    /// all of `SMHC_IDST` (written [`IDST_CLEAR_ALL`]).
    pub clear_all: bool,
    pub acknowledge: Acknowledge,
    /// The length the data buffer is set to, once the transfer filled it.
    pub set_buf_len: Option<usize>,
    /// Whether the driver task's waker is woken (interrupts are then
    /// disabled until the task runs).
    pub wake: bool,
}

/// The state an interrupt leaves the state machine in.
pub open spec fn next_state(d: SmhcData, st: IrqStatus) -> State {
    match d.state {
        State::Idle => State::Idle,
        State::WaitForCommand => if st.command_complete {
            match d.op {
                SmhcOp::Read { .. } | SmhcOp::Write { .. } => State::WaitForDma,
                _ => State::Idle,
            }
        } else {
            State::WaitForCommand
        },
        State::WaitForDma => if st.idmac_pending {
            State::WaitForDataTransfer
        } else {
            State::WaitForDma
        },
        State::WaitForDataTransfer => if st.data_transfer_complete {
            match d.op {
                SmhcOp::Read { auto_stop, .. } | SmhcOp::Write { auto_stop, .. } => if auto_stop {
                    State::WaitForAutoStop
                } else {
                    State::Idle
                },
                _ => State::Idle,
            }
        } else {
            State::WaitForDataTransfer
        },
        State::WaitForAutoStop => if st.auto_command_done {
            State::Idle
        } else {
            State::WaitForAutoStop
        },
    }
}

/// The acknowledgement an interrupt performs.
pub open spec fn acknowledgement(d: SmhcData, st: IrqStatus) -> Acknowledge {
    match d.state {
        State::WaitForCommand => if st.command_complete {
            Acknowledge::CommandComplete
        } else {
            Acknowledge::Nothing
        },
        State::WaitForDma => if st.idmac_pending {
            Acknowledge::IdmacTransfer
        } else {
            Acknowledge::Nothing
        },
        State::WaitForDataTransfer => if st.data_transfer_complete {
            Acknowledge::DataTransferComplete
        } else {
            Acknowledge::Nothing
        },
        State::WaitForAutoStop => if st.auto_command_done {
            Acknowledge::AutoCommandDone
        } else {
            Acknowledge::Nothing
        },
        State::Idle => Acknowledge::Nothing,
    }
}

/// Whether the state machine's step finished the operation: a control
/// command completed, a transfer without auto-stop moved its data, or the
/// auto-stop command is done.
pub open spec fn step_completes(d: SmhcData, st: IrqStatus) -> bool {
    match d.state {
        State::WaitForCommand => st.command_complete && d.op is Control,
        State::WaitForDataTransfer => st.data_transfer_complete && match d.op {
            SmhcOp::Read { auto_stop, .. } | SmhcOp::Write { auto_stop, .. } => !auto_stop,
            _ => false,
        },
        State::WaitForAutoStop => st.auto_command_done,
        _ => false,
    }
}

/// Whether the step filled the transfer's buffer.
pub open spec fn step_fills(d: SmhcData, st: IrqStatus) -> bool {
    d.state == State::WaitForDataTransfer && st.data_transfer_complete && (d.op is Read
        || d.op is Write)
}

/// The transfer length of a read or write.
pub open spec fn op_cnt(op: SmhcOp) -> usize {
    match op {
        SmhcOp::Read { cnt, .. } | SmhcOp::Write { cnt, .. } => cnt,
        _ => 0,
    }
}

impl SmhcData {
    /// The state before any command: idle.
    pub fn new() -> (r: SmhcData)
        ensures
            r.state == State::Idle,
            r.op == SmhcOp::Control,
            r.err is None,
            !r.has_waker,
    {
        SmhcData { state: State::Idle, op: SmhcOp::Control, err: None, has_waker: false }
    }

    /// Handles an SMHC interrupt.
    ///
    /// `err` is what [`error_status`] found on entry; `st` is the status
    /// read after the interrupt bits were cleared for it. An error is
    /// recorded, clears every interrupt bit and wakes the driver; the state
    /// machine then advances on `st`.
    pub fn advance_isr(&mut self, err: Option<ErrorKind>, st: &IrqStatus) -> (r: IsrActions)
        ensures
            final(self).err == err,
            r.clear_all == err is Some,
            final(self).state == next_state(*old(self), *st),
            r.acknowledge == acknowledgement(*old(self), *st),
            ({
                let wanted = err is Some || step_completes(*old(self), *st);
                &&& r.wake == (wanted && old(self).has_waker)
                &&& final(self).has_waker == (old(self).has_waker && !wanted)
            }),
            step_fills(*old(self), *st) ==> r.set_buf_len == Some(op_cnt(old(self).op))
                && final(self).op == match old(self).op {
                SmhcOp::Read { cnt, auto_stop, .. } => SmhcOp::Read { buf_len: cnt, cnt, auto_stop },
                SmhcOp::Write { cnt, auto_stop, .. } => SmhcOp::Write { buf_len: cnt, cnt, auto_stop },
                other => other,
            },
            !step_fills(*old(self), *st) ==> r.set_buf_len is None && final(self).op == old(self).op,
    {
        self.err = err;
        let mut needs_wake = err.is_some();
        let mut acknowledge = Acknowledge::Nothing;
        let mut set_buf_len: Option<usize> = None;
        self.state = match self.state {
            State::Idle => State::Idle,
            State::WaitForCommand => {
                if st.command_complete {
                    acknowledge = Acknowledge::CommandComplete;
                    match self.op {
                        SmhcOp::NoOp => State::Idle,
                        SmhcOp::Control => {
                            needs_wake = true;
                            State::Idle
                        },
                        SmhcOp::Read { .. } | SmhcOp::Write { .. } => State::WaitForDma,
                    }
                } else {
                    self.state
                }
            },
            State::WaitForDma => {
                if st.idmac_pending {
                    acknowledge = Acknowledge::IdmacTransfer;
                    State::WaitForDataTransfer
                } else {
                    self.state
                }
            },
            State::WaitForDataTransfer => {
                if st.data_transfer_complete {
                    acknowledge = Acknowledge::DataTransferComplete;
                    match self.op {
                        SmhcOp::NoOp | SmhcOp::Control => State::Idle,
                        SmhcOp::Read { cnt, auto_stop, .. } => {
                            set_buf_len = Some(cnt);
                            self.op = SmhcOp::Read { buf_len: cnt, cnt, auto_stop };
                            if auto_stop {
                                State::WaitForAutoStop
                            } else {
                                needs_wake = true;
                                State::Idle
                            }
                        },
                        SmhcOp::Write { cnt, auto_stop, .. } => {
                            set_buf_len = Some(cnt);
                            self.op = SmhcOp::Write { buf_len: cnt, cnt, auto_stop };
                            if auto_stop {
                                State::WaitForAutoStop
                            } else {
                                needs_wake = true;
                                State::Idle
                            }
                        },
                    }
                } else {
                    self.state
                }
            },
            State::WaitForAutoStop => {
                if st.auto_command_done {
                    acknowledge = Acknowledge::AutoCommandDone;
                    needs_wake = true;
                    State::Idle
                } else {
                    self.state
                }
            },
        };
        let wake = needs_wake && self.has_waker;
        if wake {
            self.has_waker = false;
        }
        IsrActions { clear_all: err.is_some(), acknowledge, set_buf_len, wake }
    }
}

/// The kinds of SD/MMC command: without data, or reading or writing `usize`
/// bytes.
#[derive(Debug, Copy, Clone, PartialEq, Eq, Structural)]
pub enum CommandKind {
    Control,
    Read(usize),
    Write(usize),
}

/// The response a command expects.
#[derive(Debug, Copy, Clone, PartialEq, Eq, Structural)]
pub enum ResponseType {
    Empty,
    Short,
    Long,
}

/// Card data bus widths.
#[derive(Debug, Copy, Clone, PartialEq, Eq, Structural)]
pub enum BusWidth {
    Single,
    Quad,
    Octo,
}

/// Hardware configuration done before a command.
#[derive(Debug, Copy, Clone, PartialEq, Eq, Structural)]
pub enum HardwareOptions {
    NoChange,
    SetBusWidth(BusWidth),
}

/// An SD/MMC command.
#[derive(Debug, Copy, Clone, PartialEq, Eq, Structural)]
pub struct Command {
    pub index: u8,
    pub argument: u32,
    pub options: HardwareOptions,
    pub kind: CommandKind,
    pub rsp_type: ResponseType,
    pub rsp_crc: bool,
}

/// The memory a command's data moves through: its address and capacity.
#[derive(Debug, Copy, Clone, PartialEq, Eq, Structural)]
pub struct DataBuffer {
    pub addr: usize,
    pub len: usize,
    pub capacity: usize,
}

/// The SD/MMC error classes reported to a requester.
#[derive(Debug, Copy, Clone, PartialEq, Eq, Structural)]
pub enum SdmmcErrorKind {
    Busy,
    Buffer,
    Response,
    Data,
    Timeout,
    Other,
}

/// An SD/MMC error: its class and, for transfer errors, a short message.
#[derive(Debug, Copy, Clone, PartialEq, Eq)]
pub struct SdmmcError {
    pub kind: SdmmcErrorKind,
    pub message: Option<&'static str>,
}

/// The fields written to `SMHC_CMD` to start a command.
#[derive(Debug, Copy, Clone, PartialEq, Eq, Structural)]
pub struct CmdRegister {
    pub cmd_idx: u8,
    pub data_trans: bool,
    pub trans_dir: bool,
    pub stop_cmd_flag: bool,
    pub chk_resp_crc: bool,
    pub long_resp: bool,
    pub resp_rcv: bool,
}

/// The DMA set-up of a data command: the descriptor chain, to be placed at
/// the descriptor base address, and the byte count.
#[derive(Debug, Clone, PartialEq, Eq)]
pub struct DmaPlan {
    pub descriptors: Vec<idmac::Descriptor>,
    pub byte_cnt: u32,
}

/// What starting a command writes to the hardware.
#[derive(Debug, Clone, PartialEq, Eq)]
pub struct CommandIssue {
    pub dma: Option<DmaPlan>,
    pub argument: u32,
    pub cmd: CmdRegister,
}

/// A command's response.
#[derive(Debug, Copy, Clone, PartialEq, Eq, Structural)]
pub enum Response {
    /// A 32-bit response; a read returns its buffer, filled to `data` bytes.
    Short { value: u32, data: Option<usize> },
    /// A 128-bit response.
    Long(u128),
}

/// Bytes covered by one IDMAC descriptor of a command's chain.
pub const DESCR_BUFF_SIZE: usize = 0x1000;

/// Number of descriptors available for one command.
pub const DESCR_COUNT: usize = 16;

/// Size of one IDMAC descriptor in memory.
pub const DESCR_BYTES: usize = 16;

/// The register fields of a command.
pub open spec fn cmd_register(params: Command) -> CmdRegister {
    let (data_trans, trans_dir, auto_stop) = match params.kind {
        CommandKind::Control => (false, false, false),
        CommandKind::Read(_) => (true, false, true),
        CommandKind::Write(_) => (true, true, true),
    };
    CmdRegister {
        cmd_idx: params.index,
        data_trans,
        trans_dir,
        stop_cmd_flag: auto_stop,
        chk_resp_crc: params.rsp_crc,
        long_resp: params.rsp_type == ResponseType::Long,
        resp_rcv: params.rsp_type != ResponseType::Empty,
    }
}

/// The number of descriptors a transfer of `cnt` bytes needs.
pub open spec fn chain_len(cnt: usize) -> nat {
    ((cnt + DESCR_BUFF_SIZE - 1) / (DESCR_BUFF_SIZE as int)) as nat
}

/// Descriptor `i` of the chain for `cnt` bytes at `buf`, the chain itself
/// placed at `base`: each covers up to 4 KiB of the buffer, only the last
/// raises an interrupt, and each links to the next.
pub open spec fn chain_descriptor(buf: usize, base: usize, cnt: usize, i: int) -> idmac::Descriptor {
    let n = chain_len(cnt) as int;
    let first = i == 0;
    let last = i == n - 1;
    let size = if cnt - i * 4096 < 4096 { cnt - i * 4096 } else { 4096 };
    let cfg = with_flag(with_flag(with_flag(0, CFG_INT_DIS, !last), CFG_FIRST, first), CFG_LAST, last);
    idmac::Descriptor {
        configuration: cfg | CFG_CHAIN_MOD | CFG_DES_OWN,
        buff_size: size as u32,
        buff_addr: (((buf + i * 4096) % 0x1_0000_0000int) / 4) as u32,
        next_desc: if last { 0 } else { (((base + (i + 1) * 16) % 0x1_0000_0000int) / 4) as u32 },
    }
}

/// The requester-facing class and message of each SMHC error.
pub open spec fn sdmmc_error_of(e: ErrorKind) -> (SdmmcErrorKind, Seq<char>) {
    match e {
        ErrorKind::Response => (SdmmcErrorKind::Response, "Response"@),
        ErrorKind::ResponseCrc => (SdmmcErrorKind::Response, "CRC"@),
        ErrorKind::DataCrc => (SdmmcErrorKind::Data, "CRC"@),
        ErrorKind::ResponseTimeout => (SdmmcErrorKind::Timeout, "Response"@),
        ErrorKind::DataTimeout => (SdmmcErrorKind::Timeout, "Data"@),
        ErrorKind::DataStarvationTimeout => (SdmmcErrorKind::Timeout, "DataStarvation"@),
        ErrorKind::FifoUnderrunOverflow => (SdmmcErrorKind::Data, "FIFO"@),
        ErrorKind::CommandBusyIllegalWrite => (SdmmcErrorKind::Busy, "Command"@),
        ErrorKind::DataStart => (SdmmcErrorKind::Data, "DataStart"@),
        ErrorKind::DataEnd => (SdmmcErrorKind::Data, "DataEnd"@),
        ErrorKind::Dma => (SdmmcErrorKind::Other, "DMA"@),
        ErrorKind::Other => (SdmmcErrorKind::Other, "Unknown"@),
    }
}

/// The 128-bit value of a long response, `resp0` being the low word.
pub open spec fn long_value(r0: u32, r1: u32, r2: u32, r3: u32) -> int {
    r0 + r1 * 0x1_0000_0000int + r2 * 0x1_0000_0000_0000_0000int + r3
        * 0x1_0000_0000_0000_0000_0000_0000int
}

impl SdmmcError {
    /// An error of class `kind` without a message.
    pub fn from_kind(kind: SdmmcErrorKind) -> (r: SdmmcError)
        ensures
            r.kind == kind,
            r.message is None,
    {
        SdmmcError { kind, message: None }
    }
}

/// Maps an SMHC error to the error reported to the requester.
pub fn sdmmc_error(e: ErrorKind) -> (r: SdmmcError)
    ensures
        r.kind == sdmmc_error_of(e).0,
        r.message is Some && r.message->0@ == sdmmc_error_of(e).1,
{
    let (kind, msg) = match e {
        ErrorKind::Response => (SdmmcErrorKind::Response, "Response"),
        ErrorKind::ResponseCrc => (SdmmcErrorKind::Response, "CRC"),
        ErrorKind::DataCrc => (SdmmcErrorKind::Data, "CRC"),
        ErrorKind::ResponseTimeout => (SdmmcErrorKind::Timeout, "Response"),
        ErrorKind::DataTimeout => (SdmmcErrorKind::Timeout, "Data"),
        ErrorKind::DataStarvationTimeout => (SdmmcErrorKind::Timeout, "DataStarvation"),
        ErrorKind::FifoUnderrunOverflow => (SdmmcErrorKind::Data, "FIFO"),
        ErrorKind::CommandBusyIllegalWrite => (SdmmcErrorKind::Busy, "Command"),
        ErrorKind::DataStart => (SdmmcErrorKind::Data, "DataStart"),
        ErrorKind::DataEnd => (SdmmcErrorKind::Data, "DataEnd"),
        ErrorKind::Dma => (SdmmcErrorKind::Other, "DMA"),
        ErrorKind::Other => (SdmmcErrorKind::Other, "Unknown"),
    };
    SdmmcError { kind, message: Some(msg) }
}

/// Encodes a command into the fields of `SMHC_CMD`.
pub fn command_register(params: &Command) -> (r: CmdRegister)
    ensures
        r == cmd_register(*params),
{
    let (data_trans, trans_dir, auto_stop) = match params.kind {
        CommandKind::Control => (false, false, false),
        CommandKind::Read(_) => (true, false, true),
        CommandKind::Write(_) => (true, true, true),
    };
    CmdRegister {
        cmd_idx: params.index,
        data_trans,
        trans_dir,
        stop_cmd_flag: auto_stop,
        chk_resp_crc: params.rsp_crc,
        long_resp: params.rsp_type == ResponseType::Long,
        resp_rcv: params.rsp_type != ResponseType::Empty,
    }
}

/// Combines the four response words of a long response, `resp0` lowest.
pub fn long_response(r0: u32, r1: u32, r2: u32, r3: u32) -> (r: u128)
    ensures
        r == long_value(r0, r1, r2, r3),
{
    let v = (r0 as u128) | ((r1 as u128) << 32u32) | ((r2 as u128) << 64u32) | ((r3 as u128) << 96u32);
    assert(v == (r0 as u128) + (r1 as u128) * 0x1_0000_0000u128 + (r2 as u128)
        * 0x1_0000_0000_0000_0000u128 + (r3 as u128) * 0x1_0000_0000_0000_0000_0000_0000u128)
        by (bit_vector)
        requires
            v == (r0 as u128) | ((r1 as u128) << 32u32) | ((r2 as u128) << 64u32) | ((r3 as u128)
                << 96u32),
    ;
    v
}

/// Splits a transfer of `cnt` bytes at `buf` into a chain of IDMAC
/// descriptors, the chain to be placed at `base`.
///
/// Each descriptor covers up to 4 KiB; the buffer address and length must be
/// multiples of four, else the transfer is refused as a buffer error.
#[verifier::spinoff_prover]
#[verifier::rlimit(40)]
pub fn plan_descriptor_chain(buf: usize, cnt: usize, base: usize) -> (r: Result<
    Vec<idmac::Descriptor>,
    SdmmcError,
>)
    requires
        cnt <= DESCR_BUFF_SIZE * DESCR_COUNT,
        buf + cnt <= usize::MAX,
        base + DESCR_BYTES * DESCR_COUNT <= usize::MAX,
        base % 4 == 0,
    ensures
        cnt > 0 && (buf % 4 != 0 || cnt % 4 != 0) ==> r == Err::<Vec<idmac::Descriptor>, SdmmcError>(
            SdmmcError { kind: SdmmcErrorKind::Buffer, message: None },
        ),
        !(cnt > 0 && (buf % 4 != 0 || cnt % 4 != 0)) ==> r is Ok && r->Ok_0@.len() == chain_len(cnt)
            && forall|i: int|
            0 <= i < chain_len(cnt) ==> #[trigger] r->Ok_0@[i] == chain_descriptor(buf, base, cnt, i),
{
    let mut descriptors: Vec<idmac::Descriptor> = Vec::new();
    let mut remaining = cnt;
    let mut index: usize = 0;
    let ghost n = chain_len(cnt) as int;
    while remaining > 0
        invariant
            cnt <= DESCR_BUFF_SIZE * DESCR_COUNT,
            buf + cnt <= usize::MAX,
            base + DESCR_BYTES * DESCR_COUNT <= usize::MAX,
            base % 4 == 0,
            n == chain_len(cnt),
            index * 4096 + remaining == cnt || (remaining == 0 && index == n),
            remaining > 0 ==> index < n && remaining == cnt - index * 4096,
            index <= n,
            descriptors@.len() == index,
            forall|i: int| 0 <= i < index ==> #[trigger] descriptors@[i] == chain_descriptor(buf, base, cnt, i),
            cnt > 0 && (buf % 4 != 0 || cnt % 4 != 0) ==> remaining > 0,
        decreases remaining,
    {
        let buff_size = if remaining < DESCR_BUFF_SIZE { remaining } else { DESCR_BUFF_SIZE };
        let buff_addr = buf + index * DESCR_BUFF_SIZE;
        remaining = if remaining > DESCR_BUFF_SIZE { remaining - DESCR_BUFF_SIZE } else { 0 };
        let first = index == 0;
        let last = remaining == 0;
        assert(last <==> index == n - 1);
        let link = if last { None } else { Some(base + (index + 1) * DESCR_BYTES) };
        let b = idmac::DescriptorBuilder::new().disable_irq(!last).first(first).last(last);
        let b = match b.link(link) {
            Ok(b) => b,
            Err(_) => {
                assert(false);
                return Err(SdmmcError::from_kind(SdmmcErrorKind::Buffer));
            },
        };
        let b = match b.buff_slice(buff_addr, buff_size) {
            Ok(b) => b,
            Err(_) => {
                return Err(SdmmcError::from_kind(SdmmcErrorKind::Buffer));
            },
        };
        proof {
            assert((buff_addr as int) % 4 == (buf as int) % 4) by (nonlinear_arith)
                requires buff_addr == buf + index * 4096;
            if remaining == 0 {
                assert((buff_size as int) % 4 == (cnt as int) % 4) by (nonlinear_arith)
                    requires buff_size == cnt - index * 4096;
            }
        }
        let d = b.build();
        descriptors.push(d);
        index += 1;
    }
    Ok(descriptors)
}


/// The bytes covered by the first `k` descriptors of a chain.
pub open spec fn chain_bytes(buf: usize, base: usize, cnt: usize, k: int) -> int
    decreases k,
{
    if k <= 0 {
        0
    } else {
        chain_bytes(buf, base, cnt, k - 1) + chain_descriptor(buf, base, cnt, k - 1).buff_size
    }
}

/// The chain length is the number of 4 KiB pieces, the last one partial.
proof fn lemma_chain_len(cnt: usize)
    ensures
        chain_len(cnt) * 4096 >= cnt,
        cnt > 0 ==> (chain_len(cnt) - 1) * 4096 < cnt,
{
    let n = chain_len(cnt) as int;
    assert(n == (cnt + 4095) / 4096);
    assert(n * 4096 >= cnt && (cnt > 0 ==> (n - 1) * 4096 < cnt)) by (nonlinear_arith)
        requires n == (cnt + 4095) / 4096, cnt >= 0;
}

proof fn lemma_chain_prefix(buf: usize, base: usize, cnt: usize, k: int)
    requires
        0 <= k <= chain_len(cnt),
    ensures
        chain_bytes(buf, base, cnt, k) == if k * 4096 < cnt { k * 4096 } else { cnt as int },
    decreases k,
{
    lemma_chain_len(cnt);
    if k > 0 {
        lemma_chain_prefix(buf, base, cnt, k - 1);
        assert((k - 1) * 4096 < cnt) by (nonlinear_arith)
            requires k - 1 <= chain_len(cnt) - 1, (chain_len(cnt) - 1) * 4096 < cnt, cnt > 0;
    }
}

/// The descriptors of a transfer's chain cover exactly its bytes, in 4 KiB
/// pieces laid end to end.
pub proof fn lemma_chain_covers(buf: usize, base: usize, cnt: usize)
    ensures
        chain_bytes(buf, base, cnt, chain_len(cnt) as int) == cnt,
        forall|i: int| 0 <= i < chain_len(cnt) ==> 0 < #[trigger] chain_descriptor(buf, base, cnt, i).buff_size <= 4096,
{
    lemma_chain_len(cnt);
    lemma_chain_prefix(buf, base, cnt, chain_len(cnt) as int);
    assert forall|i: int| 0 <= i < chain_len(cnt) implies 0 < #[trigger] chain_descriptor(buf, base, cnt, i).buff_size <= 4096 by {
        assert(i * 4096 < cnt) by (nonlinear_arith)
            requires i <= chain_len(cnt) - 1, (chain_len(cnt) - 1) * 4096 < cnt, cnt > 0;
    }
}

/// What starting a command does: an optional bus-width change (made before
/// anything can fail, except a busy controller), then either the command's
/// register writes or an error.
#[derive(Debug, PartialEq, Eq)]
pub struct CommandStart {
    pub bus_width: Option<BusWidth>,
    pub outcome: Result<CommandIssue, SdmmcError>,
}

/// The bus width a command's options ask for.
pub open spec fn requested_width(options: HardwareOptions) -> Option<BusWidth> {
    match options {
        HardwareOptions::NoChange => None,
        HardwareOptions::SetBusWidth(w) => Some(w),
    }
}

/// The largest transfer one command can make.
pub open spec fn max_transfer() -> int {
    DESCR_BUFF_SIZE * DESCR_COUNT
}

impl SmhcData {
    /// Starts a command (`busy`: the controller still has a command loaded).
    ///
    /// A data command needs a buffer of at least `cnt` bytes, at most 64 KiB
    /// are moved at once, and the buffer's address and the count must be
    /// multiples of four; otherwise the command fails with a buffer error.
    /// The IDMAC descriptor chain is laid out at `desc_base`.
    pub fn start_command(
        &mut self,
        busy: bool,
        params: &Command,
        buffer: Option<DataBuffer>,
        desc_base: usize,
    ) -> (r: CommandStart)
        requires
            buffer is Some ==> buffer->0.addr + buffer->0.capacity <= usize::MAX,
            desc_base + DESCR_BYTES * DESCR_COUNT <= usize::MAX,
            desc_base % 4 == 0,
        ensures
            final(self).err == old(self).err,
            final(self).has_waker == old(self).has_waker,
            busy ==> r.bus_width is None && r.outcome == Err::<CommandIssue, SdmmcError>(
                SdmmcError { kind: SdmmcErrorKind::Busy, message: None },
            ) && *final(self) == *old(self),
            !busy ==> r.bus_width == requested_width(params.options),
            !busy ==> match (params.kind, buffer) {
                (CommandKind::Control, _) => {
                    &&& final(self).op == SmhcOp::Control
                    &&& final(self).state == State::WaitForCommand
                    &&& r.outcome is Ok
                    &&& r.outcome->Ok_0.dma is None
                    &&& r.outcome->Ok_0.argument == params.argument
                    &&& r.outcome->Ok_0.cmd == cmd_register(*params)
                },
                (CommandKind::Read(_), None) | (CommandKind::Write(_), None) => {
                    &&& r.outcome == Err::<CommandIssue, SdmmcError>(
                        SdmmcError { kind: SdmmcErrorKind::Buffer, message: None },
                    )
                    &&& *final(self) == *old(self)
                },
                (CommandKind::Read(cnt), Some(b)) | (CommandKind::Write(cnt), Some(b)) => {
                    let fits = cnt <= max_transfer() && cnt <= b.capacity;
                    let aligned = cnt == 0 || (b.addr % 4 == 0 && cnt % 4 == 0);
                    &&& final(self).op == (if params.kind is Read {
                        SmhcOp::Read { buf_len: b.len, cnt, auto_stop: true }
                    } else {
                        SmhcOp::Write { buf_len: b.len, cnt, auto_stop: true }
                    })
                    &&& (!(fits && aligned) ==> r.outcome == Err::<CommandIssue, SdmmcError>(
                        SdmmcError { kind: SdmmcErrorKind::Buffer, message: None },
                    ) && final(self).state == old(self).state)
                    &&& (fits && aligned ==> {
                        &&& final(self).state == State::WaitForCommand
                        &&& r.outcome is Ok
                        &&& r.outcome->Ok_0.argument == params.argument
                        &&& r.outcome->Ok_0.cmd == cmd_register(*params)
                        &&& r.outcome->Ok_0.dma is Some
                        &&& r.outcome->Ok_0.dma->0.byte_cnt == cnt
                        &&& r.outcome->Ok_0.dma->0.descriptors@.len() == chain_len(cnt)
                        &&& forall|i: int| 0 <= i < chain_len(cnt) ==>
                            #[trigger] r.outcome->Ok_0.dma->0.descriptors@[i] == chain_descriptor(
                                b.addr, desc_base, cnt, i)
                    })
                },
            },
    {
        if busy {
            return CommandStart {
                bus_width: None,
                outcome: Err(SdmmcError::from_kind(SdmmcErrorKind::Busy)),
            };
        }
        let cmd = command_register(params);
        let bus_width = match params.options {
            HardwareOptions::NoChange => None,
            HardwareOptions::SetBusWidth(w) => Some(w),
        };
        let (op, data) = match (params.kind, buffer) {
            (CommandKind::Control, _) => (SmhcOp::Control, None),
            (CommandKind::Read(cnt), Some(b)) => (
                SmhcOp::Read { buf_len: b.len, cnt, auto_stop: true },
                Some((b, cnt)),
            ),
            (CommandKind::Write(cnt), Some(b)) => (
                SmhcOp::Write { buf_len: b.len, cnt, auto_stop: true },
                Some((b, cnt)),
            ),
            _ => {
                return CommandStart {
                    bus_width,
                    outcome: Err(SdmmcError::from_kind(SdmmcErrorKind::Buffer)),
                };
            },
        };
        self.op = op;
        let dma = match data {
            None => None,
            Some((b, cnt)) => {
                if cnt > DESCR_BUFF_SIZE * DESCR_COUNT || b.capacity < cnt {
                    return CommandStart {
                        bus_width,
                        outcome: Err(SdmmcError::from_kind(SdmmcErrorKind::Buffer)),
                    };
                }
                match plan_descriptor_chain(b.addr, cnt, desc_base) {
                    Ok(descriptors) => Some(DmaPlan { descriptors, byte_cnt: cnt as u32 }),
                    Err(e) => {
                        return CommandStart { bus_width, outcome: Err(e) };
                    },
                }
            },
        };
        self.state = State::WaitForCommand;
        CommandStart {
            bus_width,
            outcome: Ok(CommandIssue { dma, argument: params.argument, cmd }),
        }
    }

    /// Collects a finished command's outcome from the response registers:
    /// the recorded error if any (clearing it), else a long response, else a
    /// short one carrying a read's buffer length (nothing is then left in
    /// flight).
    pub fn finish_command(&mut self, long_resp: bool, r0: u32, r1: u32, r2: u32, r3: u32) -> (r: Result<
        Response,
        SdmmcError,
    >)
        ensures
            final(self).err is None,
            final(self).state == old(self).state,
            final(self).has_waker == old(self).has_waker,
            match old(self).err {
                Some(e) => r is Err && r->Err_0.kind == sdmmc_error_of(e).0 && r->Err_0.message is Some
                    && r->Err_0.message->0@ == sdmmc_error_of(e).1 && final(self).op == old(self).op,
                None => if long_resp {
                    r is Ok && r->Ok_0 is Long && r->Ok_0->Long_0 == long_value(r0, r1, r2, r3)
                        && final(self).op == old(self).op
                } else {
                    &&& final(self).op == SmhcOp::NoOp
                    &&& r == Ok::<Response, SdmmcError>(Response::Short {
                        value: r0,
                        data: match old(self).op {
                            SmhcOp::Read { buf_len, .. } => Some(buf_len),
                            _ => None,
                        },
                    })
                },
            },
    {
        if let Some(error) = self.err.take() {
            return Err(sdmmc_error(error));
        }
        if long_resp {
            Ok(Response::Long(long_response(r0, r1, r2, r3)))
        } else {
            let data = match self.op {
                SmhcOp::Read { buf_len, .. } => Some(buf_len),
                _ => None,
            };
            self.op = SmhcOp::NoOp;
            Ok(Response::Short { value: r0, data })
        }
    }
}

/// What `SMHC_CMD` says of a command's data: a data transfer exactly for a
/// read or a write, directed to the card (`trans_dir`) exactly for a write,
/// and followed by an automatic stop command exactly when data moves; the
/// response is awaited unless none is expected, long only for a long one,
/// and its CRC checked as the command asks.
pub proof fn lemma_command_register_directions(params: Command)
    ensures
        cmd_register(params).data_trans <==> !(params.kind is Control),
        cmd_register(params).trans_dir <==> params.kind is Write,
        cmd_register(params).stop_cmd_flag <==> !(params.kind is Control),
        cmd_register(params).resp_rcv <==> !(params.rsp_type is Empty),
        cmd_register(params).long_resp <==> params.rsp_type is Long,
        cmd_register(params).chk_resp_crc == params.rsp_crc,
        cmd_register(params).cmd_idx == params.index,
{
}

/// Whether the status bit (or bits) reporting error `k` are set.
pub open spec fn flags(st: IrqStatus, k: ErrorKind) -> bool {
    match k {
        ErrorKind::DataStarvationTimeout => st.data_starvation_timeout,
        ErrorKind::FifoUnderrunOverflow => st.fifo_underrun_overflow,
        ErrorKind::CommandBusyIllegalWrite => st.command_busy_illegal_write,
        ErrorKind::ResponseTimeout => st.response_timeout,
        ErrorKind::ResponseCrc => st.response_crc,
        ErrorKind::Response => st.response_error,
        ErrorKind::DataTimeout => st.data_timeout,
        ErrorKind::DataCrc => st.data_crc,
        ErrorKind::DataStart => st.data_start,
        ErrorKind::DataEnd => st.data_end,
        ErrorKind::Dma => st.descriptor_unavailable || st.fatal_bus_error,
        ErrorKind::Other => false,
    }
}

/// An interrupt reports an error exactly when an error bit is set, and the
/// error it reports is one whose bit is set; starvation, FIFO and busy
/// errors win over response errors, response errors over data errors, and
/// data errors over IDMAC errors. Completion bits never count as errors.
pub proof fn lemma_error_status_reports_flagged(st: IrqStatus)
    ensures
        status_error(st) is None <==> !(st.data_starvation_timeout || st.fifo_underrun_overflow
            || st.command_busy_illegal_write || st.response_timeout || st.response_crc
            || st.response_error || st.data_timeout || st.data_crc || st.data_start || st.data_end
            || st.descriptor_unavailable || st.fatal_bus_error),
        status_error(st) matches Some(k) ==> flags(st, k),
        (st.response_timeout || st.response_crc || st.response_error) && !(st.data_starvation_timeout
            || st.fifo_underrun_overflow || st.command_busy_illegal_write) ==> (status_error(st) matches Some(k)
            && (k is ResponseTimeout || k is ResponseCrc || k is Response)),
        (st.data_timeout || st.data_crc || st.data_start || st.data_end) ==> (status_error(st) matches Some(k)
            && !(k is Dma)),
        status_error(st) == status_error(IrqStatus {
            command_complete: false,
            data_transfer_complete: false,
            auto_command_done: false,
            idmac_pending: false,
            ..st
        }),
{
}

/// The requester sees timeouts as timeouts, response and CRC-of-response
/// errors as response errors, data-path errors as data errors, an illegal
/// write while busy as busy, and DMA or unknown errors as other errors.
pub proof fn lemma_sdmmc_error_classes()
    ensures
        sdmmc_error_of(ErrorKind::ResponseTimeout).0 == SdmmcErrorKind::Timeout,
        sdmmc_error_of(ErrorKind::DataTimeout).0 == SdmmcErrorKind::Timeout,
        sdmmc_error_of(ErrorKind::DataStarvationTimeout).0 == SdmmcErrorKind::Timeout,
        sdmmc_error_of(ErrorKind::Response).0 == SdmmcErrorKind::Response,
        sdmmc_error_of(ErrorKind::ResponseCrc).0 == SdmmcErrorKind::Response,
        sdmmc_error_of(ErrorKind::DataCrc).0 == SdmmcErrorKind::Data,
        sdmmc_error_of(ErrorKind::FifoUnderrunOverflow).0 == SdmmcErrorKind::Data,
        sdmmc_error_of(ErrorKind::DataStart).0 == SdmmcErrorKind::Data,
        sdmmc_error_of(ErrorKind::DataEnd).0 == SdmmcErrorKind::Data,
        sdmmc_error_of(ErrorKind::CommandBusyIllegalWrite).0 == SdmmcErrorKind::Busy,
        sdmmc_error_of(ErrorKind::Dma).0 == SdmmcErrorKind::Other,
        sdmmc_error_of(ErrorKind::Other).0 == SdmmcErrorKind::Other,
{
}

} // verus!
