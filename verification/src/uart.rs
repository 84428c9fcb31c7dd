//! The D1's UART0 serial port: the DMA transfer that sends a buffer out of
//! its transmit register, the bounded writer used to format into a send
//! grant, and the rule that hands the port out once.
use crate::dmac::config::{config_word, DescriptorConfig};
use crate::dmac::descriptor::{dest_drq_bits, AddressMode, BModeSel, BlockSize, DataWidth, DestDrqType, SrcDrqType};
use vstd::prelude::*;

verus! {

/// The UART0 driver.
pub struct D1Uart {
    _x: (),
}

/// The configuration of a byte-wide DMA transfer of `len` bytes from memory
/// at `source` to the I/O register at `destination`, signalled on the
/// destination's DRQ line `drq`, without a next descriptor.
pub open spec fn tx_transfer(source: usize, destination: usize, len: usize, drq: DestDrqType) -> DescriptorConfig {
    DescriptorConfig {
        source,
        destination,
        byte_counter: len,
        link: None,
        wait_clock_cycles: 0,
        bmode: BModeSel::Normal,
        dest_width: DataWidth::Bit8,
        dest_addr_mode: AddressMode::IoMode,
        dest_block_size: BlockSize::Byte1,
        dest_drq_type: drq,
        src_data_width: DataWidth::Bit8,
        src_addr_mode: AddressMode::LinearMode,
        src_block_size: BlockSize::Byte1,
        src_drq_type: SrcDrqType::Dram,
    }
}

/// The transfer that sends `len` bytes at `source` to a transmit register.
pub fn tx_transfer_config(source: usize, destination: usize, len: usize, drq: DestDrqType) -> (r: DescriptorConfig)
    ensures
        r == tx_transfer(source, destination, len, drq),
{
    DescriptorConfig {
        source,
        destination,
        byte_counter: len,
        link: None,
        wait_clock_cycles: 0,
        bmode: BModeSel::Normal,
        dest_width: DataWidth::Bit8,
        dest_addr_mode: AddressMode::IoMode,
        dest_block_size: BlockSize::Byte1,
        dest_drq_type: drq,
        src_data_width: DataWidth::Bit8,
        src_addr_mode: AddressMode::LinearMode,
        src_block_size: BlockSize::Byte1,
        src_drq_type: SrcDrqType::Dram,
    }
}

/// A transmit transfer moves single bytes from memory (DRAM request line,
/// linear addressing) to a device register (I/O addressing) in one-byte
/// blocks, paced by the device's request line: its configuration word is
/// `0x0100_0001` with the destination DRQ at bits 16 to 21, so UART0's
/// transmit transfer is `0x010E_0001` and SPI1's `0x0117_0001`.
pub proof fn lemma_tx_config_word(source: usize, destination: usize, len: usize, drq: DestDrqType)
    ensures
        config_word(tx_transfer(source, destination, len, drq)) == (0x0100_0001u32 | (dest_drq_bits(drq) << 16u32)),
        drq == DestDrqType::Uart0Tx ==> config_word(tx_transfer(source, destination, len, drq)) == 0x010E_0001,
        drq == DestDrqType::Spi1Tx ==> config_word(tx_transfer(source, destination, len, drq)) == 0x0117_0001,
{
    let d = dest_drq_bits(drq);
    assert(d < 64);
    let w = config_word(tx_transfer(source, destination, len, drq));
    assert(w == ((0u32 & 0x1) << 30u32) | ((0u32 & 0x3) << 25u32) | ((1u32 & 0x1) << 24u32) | ((0u32 & 0x3)
        << 22u32) | ((d & 0x3f) << 16u32) | ((0u32 & 0x3) << 9u32) | ((0u32 & 0x1) << 8u32) | ((0u32 & 0x3)
        << 6u32) | (1u32 & 0x3f));
    assert(w == (0x0100_0001u32 | (d << 16u32)) && (d == 14 ==> w == 0x010E_0001) && (d == 23 ==> w
        == 0x0117_0001)) by (bit_vector)
        requires
            d < 64,
            w == ((0u32 & 0x1) << 30u32) | ((0u32 & 0x3) << 25u32) | ((1u32 & 0x1) << 24u32) | ((0u32 & 0x3)
                << 22u32) | ((d & 0x3f) << 16u32) | ((0u32 & 0x3) << 9u32) | ((0u32 & 0x1) << 8u32) | ((0u32
                & 0x3) << 6u32) | (1u32 & 0x3f),
    ;
}

impl D1Uart {
    /// The transfer that sends the `len` bytes at `source` out of UART0's
    /// transmit holding register at `thr`.
    pub fn tx_descriptor_config(source: usize, thr: usize, len: usize) -> (r: DescriptorConfig)
        ensures
            r == tx_transfer(source, thr, len, DestDrqType::Uart0Tx),
    {
        tx_transfer_config(source, thr, len, DestDrqType::Uart0Tx)
    }
}

/// Writes bytes into a fixed-size grant, refusing any write that does not
/// fit whole.
pub struct GrantWriter {
    pub grant: Vec<u8>,
    pub used: usize,
}

impl GrantWriter {
    /// The grant is never overfilled.
    pub open spec fn wf(&self) -> bool {
        self.used <= self.grant@.len()
    }

    /// Appends `s` after the bytes used so far if it fits in the grant;
    /// otherwise fails and changes nothing.
    pub fn write_bytes(&mut self, s: &[u8]) -> (r: Result<(), ()>)
        requires
            old(self).wf(),
        ensures
            final(self).wf(),
            final(self).grant@.len() == old(self).grant@.len(),
            old(self).used + s@.len() <= old(self).grant@.len() ==> {
                &&& r is Ok
                &&& final(self).used == old(self).used + s@.len()
                &&& final(self).grant@ == old(self).grant@.subrange(0, old(self).used as int) + s@
                    + old(self).grant@.subrange(old(self).used + s@.len(), old(self).grant@.len() as int)
            },
            old(self).used + s@.len() > old(self).grant@.len() ==> r is Err && *final(self) == *old(self),
    {
        let glen = self.grant.len();
        let slen = s.len();
        if slen > glen - self.used {
            return Err(());
        }
        let ghost g0 = self.grant@;
        let start = self.used;
        let mut i: usize = 0;
        while i < slen
            invariant
                slen == s@.len(),
                glen == g0.len(),
                start + slen <= glen,
                self.grant@.len() == g0.len(),
                self.used == start,
                i <= slen,
                forall|j: int| 0 <= j < start ==> #[trigger] self.grant@[j] == g0[j],
                forall|j: int| start <= j < start + i ==> #[trigger] self.grant@[j] == s@[j - start],
                forall|j: int| start + i <= j < g0.len() ==> #[trigger] self.grant@[j] == g0[j],
            decreases slen - i,
        {
            self.grant.set(start + i, s[i]);
            i += 1;
        }
        self.used = start + slen;
        proof {
            assert(self.grant@ =~= g0.subrange(0, start as int) + s@ + g0.subrange(start + slen, g0.len() as int));
        }
        Ok(())
    }
}

/// Why a serial port request was refused.
#[derive(Clone, Copy, Debug, PartialEq, Eq, Structural)]
pub enum SimpleSerialError {
    AlreadyAssignedPort,
}

/// A serial port that is handed out to its first requester only.
#[derive(Clone, Copy, Debug, PartialEq, Eq, Structural)]
pub struct PortAssignment {
    pub assigned: bool,
}

impl PortAssignment {
    /// No port handed out yet.
    pub fn new() -> (r: PortAssignment)
        ensures
            !r.assigned,
    {
        PortAssignment { assigned: false }
    }

    /// Answers a request for the port: the first gets it, every later one
    /// is refused.
    pub fn request_port(&mut self) -> (r: Result<(), SimpleSerialError>)
        ensures
            final(self).assigned,
            r is Ok <==> !old(self).assigned,
            r is Err ==> r == Err::<(), SimpleSerialError>(SimpleSerialError::AlreadyAssignedPort),
    {
        if self.assigned {
            Err(SimpleSerialError::AlreadyAssignedPort)
        } else {
            self.assigned = true;
            Ok(())
        }
    }
}

} // verus!
