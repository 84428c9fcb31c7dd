use mnemos_platforms::smhc::{
    self, idmac, Acknowledge, BusWidth, Command, CommandKind, DataBuffer, ErrorKind, HardwareOptions,
    IrqStatus, Response, ResponseType, SdmmcErrorKind, SmhcData, SmhcOp, State,
};

fn quiet() -> IrqStatus {
    IrqStatus {
        data_starvation_timeout: false,
        fifo_underrun_overflow: false,
        command_busy_illegal_write: false,
        response_timeout: false,
        response_crc: false,
        response_error: false,
        data_timeout: false,
        data_crc: false,
        data_start: false,
        data_end: false,
        command_complete: false,
        data_transfer_complete: false,
        auto_command_done: false,
        descriptor_unavailable: false,
        fatal_bus_error: false,
        idmac_pending: false,
    }
}

fn read_cmd(cnt: usize) -> Command {
    Command {
        index: 17,
        argument: 0x40,
        options: HardwareOptions::SetBusWidth(BusWidth::Quad),
        kind: CommandKind::Read(cnt),
        rsp_type: ResponseType::Short,
        rsp_crc: true,
    }
}

#[test]
fn irq_status_errors() {
    assert_eq!(smhc::error_status(&quiet()), None);
    let mut st = quiet();
    st.response_timeout = true;
    assert_eq!(smhc::error_status(&st), Some(ErrorKind::ResponseTimeout));
    let e = smhc::sdmmc_error(ErrorKind::DataCrc);
    assert_eq!(e.kind, SdmmcErrorKind::Data);
    assert_eq!(e.message, Some("CRC"));
}

#[test]
fn control_command_round_trip() {
    let mut d = SmhcData::new();
    let cmd = Command {
        index: 0,
        argument: 7,
        options: HardwareOptions::NoChange,
        kind: CommandKind::Control,
        rsp_type: ResponseType::Empty,
        rsp_crc: false,
    };
    let start = d.start_command(false, &cmd, None, 0x1000);
    assert_eq!(start.bus_width, None);
    let issue = start.outcome.unwrap();
    assert_eq!(issue.argument, 7);
    assert!(issue.dma.is_none());
    assert!(!issue.cmd.resp_rcv && !issue.cmd.data_trans);
    assert_eq!(d.state, State::WaitForCommand);
    let mut st = quiet();
    st.command_complete = true;
    let act = d.advance_isr(None, &st);
    assert!(!act.clear_all);
    assert_eq!(act.acknowledge, Acknowledge::CommandComplete);
    assert_eq!(d.state, State::Idle);
    assert_eq!(d.finish_command(false, 0xabcd, 0, 0, 0), Ok(Response::Short { value: 0xabcd, data: None }));
    assert_eq!(d.op, SmhcOp::NoOp);
}

#[test]
fn busy_controller_refuses() {
    let mut d = SmhcData::new();
    let start = d.start_command(true, &read_cmd(512), None, 0x1000);
    assert_eq!(start.bus_width, None);
    assert_eq!(start.outcome.unwrap_err().kind, SdmmcErrorKind::Busy);
}

#[test]
fn read_command_plans_dma() {
    let mut d = SmhcData::new();
    let buf = DataBuffer { addr: 0x8000_0000, len: 0, capacity: 8192 };
    let start = d.start_command(false, &read_cmd(5002), Some(buf), 0x1000);
    assert_eq!(start.bus_width, Some(BusWidth::Quad));
    let issue = start.outcome.unwrap_err();
    // 5002 is not a multiple of four
    assert_eq!(issue.kind, SdmmcErrorKind::Buffer);
    let start = d.start_command(false, &read_cmd(5004), Some(buf), 0x1000);
    let issue = start.outcome.unwrap();
    let dma = issue.dma.unwrap();
    assert_eq!(dma.byte_cnt, 5004);
    assert_eq!(dma.descriptors.len(), 2);
    assert_eq!(dma.descriptors[0].buff_size, 4096);
    assert_eq!(dma.descriptors[1].buff_size, 908);
    assert_eq!(dma.descriptors[1].next_desc, 0);
    assert_eq!(dma.descriptors[0].next_desc, (0x1000 + 16) / 4);
    assert!(issue.cmd.data_trans && !issue.cmd.trans_dir && issue.cmd.stop_cmd_flag);
    // too big for the buffer
    let start = d.start_command(false, &read_cmd(8196), Some(buf), 0x1000);
    assert_eq!(start.outcome.unwrap_err().kind, SdmmcErrorKind::Buffer);
    // no buffer at all
    let start = d.start_command(false, &read_cmd(4), None, 0x1000);
    assert_eq!(start.outcome.unwrap_err().kind, SdmmcErrorKind::Buffer);
}

#[test]
fn errors_are_reported_once() {
    let mut d = SmhcData::new();
    d.err = Some(ErrorKind::DataTimeout);
    let e = d.finish_command(false, 0, 0, 0, 0).unwrap_err();
    assert_eq!(e.kind, SdmmcErrorKind::Timeout);
    assert_eq!(e.message, Some("Data"));
    assert_eq!(d.err, None);
    assert_eq!(d.finish_command(true, 1, 2, 3, 4), Ok(Response::Long(1 | (2 << 32) | (3 << 64) | (4 << 96))));
    assert_eq!(smhc::long_response(0, 0, 0, 1), 1u128 << 96);
}

#[test]
fn idmac_descriptor_builder() {
    let d = idmac::DescriptorBuilder::new()
        .first(true)
        .last(true)
        .link(None)
        .ok()
        .unwrap()
        .buff_slice(0x100, 64)
        .ok()
        .unwrap()
        .build();
    assert_eq!(d.buff_size, 64);
    assert_eq!(d.buff_addr, 0x100 / 4);
    assert_eq!(d.next_desc, 0);
    assert!(idmac::DescriptorBuilder::new().buff_slice(0x101, 64).is_err());
    assert!(idmac::DescriptorBuilder::new().link(Some(0x102)).is_err());
}

#[test]
fn error_interrupt_clears_everything_and_wakes() {
    let mut d = SmhcData::new();
    let start = d.start_command(false, &read_cmd(512), Some(DataBuffer { addr: 0x4000, len: 0, capacity: 512 }), 0x1000);
    assert!(start.outcome.is_ok());
    d.has_waker = true;
    let act = d.advance_isr(Some(ErrorKind::ResponseTimeout), &quiet());
    assert!(act.clear_all);
    assert!(act.wake);
    assert!(!d.has_waker);
    assert_eq!(d.err, Some(ErrorKind::ResponseTimeout));
    assert_eq!(act.acknowledge, Acknowledge::Nothing);
    assert_eq!(d.state, State::WaitForCommand);
    assert_eq!(smhc::RINTSTS_CLEAR_ALL, 0xFFFF_FFFF);
    assert_eq!(smhc::IDST_CLEAR_ALL, 0x3FF);
}
