use mnemos_platforms::dmac::config::{Descriptor as RawDescriptor, DescriptorConfig};
use mnemos_platforms::dmac::descriptor::{DestDrqType, Descriptor, InvalidOperandReason, Operand};
use mnemos_platforms::net_friends::{self, AccOut, Accumulator};
use mnemos_platforms::spi_sender::{SpiSender, SpiSenderServer};
use mnemos_platforms::tcp_serial::TcpSerial;
use mnemos_platforms::uart::{D1Uart, GrantWriter, PortAssignment, SimpleSerialError};

#[test]
fn cobs_frames_decode() {
    let enc = net_friends::encode(b"hello!");
    assert_eq!(enc, vec![7, b'h', b'e', b'l', b'l', b'o', b'!']);
    assert!(net_friends::encode(b"").is_empty());
    let mut acc = Accumulator::new();
    let mut wire = enc.clone();
    wire.push(0);
    wire.extend_from_slice(&[2, 9]);
    match acc.feed(&wire) {
        AccOut::MessageRem { msg, rem } => {
            assert_eq!(msg, b"hello!".to_vec());
            assert_eq!(rem, 8);
        }
        _ => panic!("expected a message"),
    }
    assert!(acc.buffer.is_empty());
    assert!(matches!(acc.feed(&[]), AccOut::Consumed));
    // a frame that does not decode
    match acc.feed(&[5, 1, 0]) {
        AccOut::ErrorRem { rem } => assert_eq!(rem, 3),
        _ => panic!("expected an error"),
    }
}

#[test]
fn spi_chunks_cover_the_payload() {
    let max = Descriptor::MAX_LEN as usize;
    assert!(SpiSenderServer::chunk_spans(0).is_empty());
    assert_eq!(SpiSenderServer::chunk_spans(10), vec![(0, 10)]);
    assert_eq!(SpiSenderServer::chunk_spans(max), vec![(0, max)]);
    assert_eq!(SpiSenderServer::chunk_spans(max + 3), vec![(0, max), (max, 3)]);
}

#[test]
fn spi_descriptor_template() {
    let cfg = SpiSenderServer::tx_config(0x0402_5200).ok().unwrap();
    assert_eq!(cfg.dest.addr, 0x0402_5200);
    // dest DRQ 23 (SPI1 TX), I/O mode, byte-wide single-byte bursts both ways
    assert_eq!(cfg.cfg.bits, (23 << 16) | (1 << 24));
    let d = SpiSenderServer::chunk_descriptor(cfg, 0x4000_0000, 52).ok().unwrap();
    assert_eq!(d.byte_counter, 52);
    assert_eq!(d.source_address, 0x4000_0000);
    assert_eq!(d.destination_address, 0x0402_5200);
    let err = SpiSenderServer::chunk_descriptor(cfg, 0x10, Descriptor::MAX_LEN as usize + 1).err().unwrap();
    assert_eq!(err.operand(), Operand::Source);
    assert!(matches!(err.reason(), InvalidOperandReason::TooLong(_)));
    assert!(SpiSenderServer::tx_config(0x4_0000_0000).is_err());
}

#[test]
fn uart_and_spi_transfers() {
    let c = D1Uart::tx_descriptor_config(0x1000, 0x0250_0000, 5);
    assert_eq!(c.source, 0x1000);
    assert_eq!(c.destination, 0x0250_0000);
    assert_eq!(c.byte_counter, 5);
    assert_eq!(c.link, None);
    assert_eq!(c.dest_drq_type, DestDrqType::Uart0Tx);
    let d: RawDescriptor = RawDescriptor::try_from(c).unwrap();
    assert_eq!(d.byte_counter, 5);
    let s: DescriptorConfig = SpiSender::tx_descriptor_config(0x2000, 0x0402_5200, 7);
    assert_eq!(s.dest_drq_type, DestDrqType::Spi1Tx);
}

#[test]
fn grant_writer_is_bounded() {
    let mut w = GrantWriter { grant: vec![0; 5], used: 0 };
    assert_eq!(w.write_bytes(b"abc"), Ok(()));
    assert_eq!(w.write_bytes(b"def"), Err(()));
    assert_eq!(w.used, 3);
    assert_eq!(w.write_bytes(b"de"), Ok(()));
    assert_eq!(w.grant, b"abcde".to_vec());
}

#[test]
fn port_is_handed_out_once() {
    let mut p = PortAssignment::new();
    assert_eq!(TcpSerial::answer_port_request(&mut p), Ok(()));
    assert_eq!(TcpSerial::answer_port_request(&mut p), Err(SimpleSerialError::AlreadyAssignedPort));
    assert_eq!(p.request_port(), Err(SimpleSerialError::AlreadyAssignedPort));
}
