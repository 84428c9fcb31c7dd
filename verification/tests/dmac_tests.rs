use mnemos_platforms::bitfield;
use mnemos_platforms::dmac::descriptor::{
    AddressMode, BModeSel, BlockSize, Cfg, DataWidth, Descriptor, DestDrqType, InvalidLink,
    InvalidOperandReason, Operand, Param, SrcDrqType,
};
use mnemos_platforms::dmac::{
    channel_mode_word, desc_addr_fields, enable_all_queue_irqs, pending_channels, queue_irq_en_offset, set_queue_irq_en, ChannelMode, Dmac,
};

#[test]
fn configuration_is_valid() {
    assert!(Cfg::assert_valid());
}

#[test]
fn dma_queue_irq_en_offset() {
    assert_eq!(queue_irq_en_offset(0), 2);
    assert_eq!(queue_irq_en_offset(1), 6);
    assert_eq!(queue_irq_en_offset(2), 10);
    assert_eq!(queue_irq_en_offset(3), 14);
    assert_eq!(queue_irq_en_offset(4), 18);
    assert_eq!(queue_irq_en_offset(5), 22);
    assert_eq!(queue_irq_en_offset(6), 26);
    assert_eq!(queue_irq_en_offset(7), 30);
}

#[test]
fn pending_channels_are_woken() {
    assert_eq!(pending_channels((1 << 2) | (1 << 30), 1 << 6), vec![0, 7, 9]);
    assert_eq!(pending_channels(0b1011, 0), Vec::<u8>::new());
    assert_eq!(pending_channels(0, 0x4444_4444), (8..16).collect::<Vec<u8>>());
}

#[test]
fn channels_are_claimed_lowest_first() {
    let mut dmac = Dmac::new();
    let a = dmac.try_claim_channel().unwrap();
    let b = dmac.try_claim_channel().unwrap();
    assert_eq!(a.channel_index(), 0);
    assert_eq!(b.channel_index(), 1);
    dmac.release(a);
    assert_eq!(dmac.claims, 0b10);
    let c = dmac.try_claim_channel().unwrap();
    assert_eq!(c.channel_index(), 0);
    for _ in 0..14 {
        assert!(dmac.try_claim_channel().is_some());
    }
    assert_eq!(dmac.claims, 0xffff);
    assert!(dmac.try_claim_channel().is_none());
    assert_eq!(Dmac::CHANNEL_COUNT, 16);
}

#[test]
fn queue_interrupt_enables() {
    assert_eq!(set_queue_irq_en(1, 0), 1 << 6);
    assert_eq!(enable_all_queue_irqs(1, 0), (0x4444_4445, 0x4444_4444));
    assert_eq!(desc_addr_fields(0x1_2345_6788), (0x48d1_59e2, 1));
}

#[test]
fn descriptor_builder_packs_fields() {
    let b = Descriptor::builder()
        .src_block_size(BlockSize::Byte4)
        .src_data_width(DataWidth::Bit32)
        .dest_block_size(BlockSize::Byte16)
        .dest_data_width(DataWidth::Bit16)
        .bmode_sel(BModeSel::BMode)
        .wait_clock_cycles(5);
    assert_eq!(b.cfg.bits, (1 << 6) | (2 << 9) | (3 << 22) | (1 << 25) | (1 << 30));
    assert_eq!(b.param.bits, 5);
    let d = b
        .source_slice(0x1_0000_1000, 64)
        .ok()
        .unwrap()
        .dest_slice(0x2000, 32)
        .ok()
        .unwrap()
        .build();
    assert_eq!(d.byte_counter, 32);
    assert_eq!(d.source_address, 0x1000);
    assert_eq!(d.parameter.bits, 5 | (1 << 16));
    assert_eq!(d.link, 0xFFFF_F800);
    let err = Descriptor::builder().source_slice(0x4_0000_0000, 1).err().unwrap();
    assert_eq!(err.operand(), Operand::Source);
    assert!(matches!(err.reason(), InvalidOperandReason::AddrTooHigh(_)));
    assert!(matches!(Descriptor::addr_to_link(0x1002), Err(InvalidLink::Misaligned(0x1002))));
    assert_eq!(Descriptor::addr_to_link(0x1000).ok(), Some(0x1000));
}

#[test]
fn bitfields_read_back_what_was_written() {
    let w = bitfield::with_field(0xffff_ffff, 4, 3, 0b010);
    assert_eq!(w, 0xffff_ffaf);
    assert_eq!(bitfield::field(w, 4, 3), 0b010);
    assert_eq!(bitfield::field(w, 0, 4), 0xf);
    // values wider than the field are truncated
    assert_eq!(bitfield::field(bitfield::with_field(0, 8, 2, 7), 8, 2), 3);
}

#[test]
fn field_values_round_trip() {
    for b in 0..64u32 {
        if let Some(v) = SrcDrqType::from_bits(b) {
            assert_eq!(v.bits(), b);
        }
        if let Some(v) = DestDrqType::from_bits(b) {
            assert_eq!(v.bits(), b);
        }
    }
    for b in 0..4u32 {
        assert_eq!(BlockSize::from_bits(b).unwrap().bits(), b);
        assert_eq!(DataWidth::from_bits(b).unwrap().bits(), b);
    }
    assert_eq!(AddressMode::from_bits(1), Some(AddressMode::IoMode));
    assert_eq!(BModeSel::from_bits(2), None);
}

#[test]
fn every_configuration_field_lands_in_place() {
    let cfg = Cfg::new()
        .with_src_drq_type(SrcDrqType::Dram)
        .with_src_block_size(BlockSize::Byte8)
        .with_src_addr_mode(AddressMode::IoMode)
        .with_src_data_width(DataWidth::Bit64)
        .with_dest_drq_type(DestDrqType::Spi1Tx)
        .with_dest_block_size(BlockSize::Byte4)
        .with_dest_addr_mode(AddressMode::LinearMode)
        .with_dest_data_width(DataWidth::Bit8)
        .with_bmode_sel(BModeSel::BMode);
    let dram = SrcDrqType::Dram.bits();
    assert_eq!(cfg.bits(), dram | (2 << 6) | (1 << 8) | (3 << 9) | (23 << 16) | (1 << 22) | (1 << 30));
    assert_eq!(cfg.src_drq_type(), Some(SrcDrqType::Dram));
    assert_eq!(cfg.dest_drq_type(), Some(DestDrqType::Spi1Tx));
    let p = Param::new().with_wait_clock_cycles(9).with_src_high(2).with_dest_high(3);
    assert_eq!(p.bits(), 9 | (2 << 16) | (3 << 18));
}

#[test]
fn channel_modes() {
    assert_eq!(channel_mode_word(ChannelMode::Wait, ChannelMode::Handshake), 0b1000);
    assert_eq!(channel_mode_word(ChannelMode::Handshake, ChannelMode::Wait), 0b0100);
    assert_eq!(channel_mode_word(ChannelMode::Wait, ChannelMode::Wait), 0);
}
