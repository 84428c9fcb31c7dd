//! The SPI sender service: it sends a byte buffer out of SPI1 by DMA, split
//! into chunks that one DMA descriptor can carry.
use crate::bitfield::set_field;
use crate::dmac::descriptor::{
    address_mode_bits, block_size_bits, built, data_width_bits, dest_drq_bits, high_bits_result,
    slice_result, src_drq_bits, AddressMode, BlockSize, DataWidth, DestDrqType, DestReg, Descriptor,
    DescriptorBuilder, InvalidOperand, Operand, SourceSlice, SrcDrqType, END_LINK,
};
use crate::dmac::config::DescriptorConfig;
use crate::uart::{tx_transfer, tx_transfer_config};
use vstd::prelude::*;

verus! {

/// The SPI1 controller, once configured for sending.
pub struct Spim1;

/// The SPI sender service.
pub struct SpiSender;

/// The server side of the SPI sender service.
pub struct SpiSenderServer;

impl SpiSender {
    /// The transfer that sends the `len` bytes at `source` out of SPI1's
    /// transmit register at `txd`, as one descriptor.
    pub fn tx_descriptor_config(source: usize, txd: usize, len: usize) -> (r: DescriptorConfig)
        ensures
            r == tx_transfer(source, txd, len, DestDrqType::Spi1Tx),
    {
        tx_transfer_config(source, txd, len, DestDrqType::Spi1Tx)
    }
}

/// The SPI sender's error.
#[derive(Clone, Copy, Debug, PartialEq, Eq, Structural)]
pub enum SpiSenderError {
    Oops,
}

/// The configuration word of the SPI transmit descriptors: byte-wide,
/// single-byte bursts on both sides, the destination being SPI1's transmit
/// register, written in I/O mode on the SPI1 TX DRQ line.
pub open spec fn spi_tx_cfg_bits() -> u32 {
    set_field(
        set_field(
            set_field(
                set_field(
                    set_field(
                        set_field(0, 25, 2, data_width_bits(DataWidth::Bit8)),
                        22,
                        2,
                        block_size_bits(BlockSize::Byte1),
                    ),
                    9,
                    2,
                    data_width_bits(DataWidth::Bit8),
                ),
                6,
                2,
                block_size_bits(BlockSize::Byte1),
            ),
            24,
            1,
            address_mode_bits(AddressMode::IoMode),
        ),
        16,
        6,
        dest_drq_bits(DestDrqType::Spi1Tx),
    )
}

/// The length of chunk `k` of a buffer of `len` bytes.
pub open spec fn chunk_len(len: int, k: int) -> int {
    if len - k * Descriptor::MAX_LEN < Descriptor::MAX_LEN {
        len - k * Descriptor::MAX_LEN
    } else {
        Descriptor::MAX_LEN as int
    }
}

/// The bytes covered by the first `n` chunks of a buffer of `len` bytes.
pub open spec fn chunks_total(len: int, n: int) -> int
    decreases n,
{
    if n <= 0 {
        0
    } else {
        chunks_total(len, n - 1) + chunk_len(len, n - 1)
    }
}

proof fn lemma_chunks_prefix(len: int, n: int)
    requires
        0 <= n,
        len >= 0,
        n == 0 || (n - 1) * Descriptor::MAX_LEN < len,
    ensures
        chunks_total(len, n) == if n * Descriptor::MAX_LEN < len { n * Descriptor::MAX_LEN } else { len },
    decreases n,
{
    if n > 0 {
        if n - 1 > 0 {
            assert((n - 2) * Descriptor::MAX_LEN < len) by (nonlinear_arith)
                requires (n - 1) * Descriptor::MAX_LEN < len, n >= 2;
        }
        lemma_chunks_prefix(len, n - 1);
    }
}

/// The chunks a buffer is sent in add up to the whole buffer: as many
/// chunks as [`SpiSenderServer::chunk_spans`] gives cover exactly `len`
/// bytes.
pub proof fn lemma_chunks_cover(len: int, n: int)
    requires
        len >= 0,
        n >= 0,
        n * Descriptor::MAX_LEN >= len,
        n == 0 || (n - 1) * Descriptor::MAX_LEN < len,
    ensures
        chunks_total(len, n) == len,
{
    lemma_chunks_prefix(len, n);
}

impl SpiSenderServer {
    /// The descriptor template for sending to SPI1's transmit register at
    /// `spi_txd`: no wait cycles, no next descriptor. Fails only for an
    /// address beyond the DMA controller's reach.
    pub fn tx_config(spi_txd: usize) -> (r: Result<DescriptorBuilder<(), DestReg>, InvalidOperand>)
        ensures
            match high_bits_result(spi_txd, Operand::Destination) {
                Err(e) => r == Err::<DescriptorBuilder<(), DestReg>, InvalidOperand>(e),
                Ok(h) => r is Ok && r->Ok_0 == (DescriptorBuilder {
                    cfg: crate::dmac::descriptor::Cfg { bits: spi_tx_cfg_bits() },
                    param: crate::dmac::descriptor::Param { bits: set_field(set_field(0, 0, 8, 0), 18, 2, h) },
                    link: END_LINK,
                    source: (),
                    dest: DestReg { addr: spi_txd },
                }),
            },
    {
        Descriptor::builder()
            .dest_data_width(DataWidth::Bit8)
            .dest_block_size(BlockSize::Byte1)
            .src_data_width(DataWidth::Bit8)
            .src_block_size(BlockSize::Byte1)
            .wait_clock_cycles(0)
            .dest_reg(spi_txd, DestDrqType::Spi1Tx)
    }

    /// The chunks a buffer of `len` bytes is sent in, as (offset, length):
    /// consecutive chunks of [`Descriptor::MAX_LEN`] bytes, the last one
    /// shorter when the length is not a multiple of it.
    pub fn chunk_spans(len: usize) -> (r: Vec<(usize, usize)>)
        ensures
            r@.len() * Descriptor::MAX_LEN >= len,
            forall|k: int| 0 <= k < r@.len() ==> (#[trigger] r@[k]).0 == k * Descriptor::MAX_LEN
                && r@[k].1 == chunk_len(len as int, k) && k * Descriptor::MAX_LEN < len,
    {
        let max = Descriptor::MAX_LEN as usize;
        let mut r: Vec<(usize, usize)> = Vec::new();
        let mut off: usize = 0;
        while off < len
            invariant
                max == Descriptor::MAX_LEN,
                off == r@.len() * Descriptor::MAX_LEN || (off == len && r@.len() * Descriptor::MAX_LEN >= len),
                off <= len,
                forall|k: int| 0 <= k < r@.len() ==> (#[trigger] r@[k]).0 == k * Descriptor::MAX_LEN
                    && r@[k].1 == chunk_len(len as int, k) && k * Descriptor::MAX_LEN < len,
            decreases len - off,
        {
            let n = if len - off < max { len - off } else { max };
            r.push((off, n));
            off = off + n;
        }
        r
    }

    /// The descriptor that sends the chunk of `len` bytes at `addr` with the
    /// template `cfg`. Fails if the chunk lies beyond the DMA controller's
    /// reach or is too long for one descriptor.
    pub fn chunk_descriptor(cfg: DescriptorBuilder<(), DestReg>, addr: usize, len: usize) -> (r: Result<Descriptor, InvalidOperand>)
        requires
            cfg.dest.addr <= Descriptor::ADDR_MAX,
        ensures
            match slice_result(addr, len, Operand::Source) {
                Err(e) => r == Err::<Descriptor, InvalidOperand>(e),
                Ok(h) => r == Ok::<Descriptor, InvalidOperand>(built(
                    crate::dmac::descriptor::Cfg { bits: set_field(set_field(cfg.cfg.bits, 8, 1,
                        address_mode_bits(AddressMode::LinearMode)), 0, 6, src_drq_bits(SrcDrqType::Dram)) },
                    crate::dmac::descriptor::Param { bits: set_field(cfg.param.bits, 16, 2, h) },
                    cfg.link, addr, cfg.dest.addr, len as u32)),
            },
    {
        match cfg.source_slice(addr, len) {
            Ok(b) => Ok(b.build()),
            Err(e) => Err(e),
        }
    }
}

} // verus!
