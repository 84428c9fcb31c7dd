//! Descriptors of the SMHC's internal DMA controller (IDMAC).
//!
//! A descriptor describes one data buffer of a transfer between the SMHC and
//! memory; descriptors are chained into a linked list through the
//! next-descriptor word.
use vstd::prelude::*;

verus! {

/// `CUR_TXRX_OVER_INT_DIS`: no interrupt when this buffer completes.
pub const CFG_INT_DIS: u32 = 0x2;
/// `LAST`: this is the last buffer of the transfer.
pub const CFG_LAST: u32 = 0x4;
/// `FIRST`: this is the first buffer of the transfer.
pub const CFG_FIRST: u32 = 0x8;
/// `CHAIN_MOD`: the second address word is the next descriptor.
pub const CFG_CHAIN_MOD: u32 = 0x10;
/// `ERR`: set by the IDMAC when the transfer failed.
pub const CFG_ERR: u32 = 0x4000_0000;
/// `DES_OWN`: the descriptor is owned by the IDMAC.
pub const CFG_DES_OWN: u32 = 0x8000_0000;

/// A descriptor as the IDMAC reads it from memory.
#[derive(Copy, Clone, Debug, PartialEq, Eq, Structural)]
pub struct Descriptor {
    /// The descriptor configuration word.
    pub configuration: u32,
    /// The size of the data buffer (13 bits).
    pub buff_size: u32,
    /// The (word) address of the data buffer.
    pub buff_addr: u32,
    /// The (word) address of the next descriptor.
    pub next_desc: u32,
}

/// Errors in building a descriptor.
#[derive(Copy, Clone, Debug, PartialEq, Eq, Structural)]
pub enum Error {
    BufferAddr,
    BufferSize,
    Link,
}

/// A data buffer given to the builder: its address and length in bytes.
#[derive(Copy, Clone, Debug, PartialEq, Eq, Structural)]
pub struct Buffer {
    pub addr: usize,
    pub len: usize,
}

/// A builder for an IDMAC [`Descriptor`]; `B` is `()` until a buffer is set.
#[derive(Copy, Clone, Debug)]
pub struct DescriptorBuilder<B: Copy> {
    pub cfg: u32,
    pub buff: B,
    pub link: u32,
}

/// Sets or clears the bits of `mask` in `bits`.
pub open spec fn with_flag(bits: u32, mask: u32, val: bool) -> u32 {
    if val {
        bits | mask
    } else {
        bits & !mask
    }
}

fn set_flag(bits: u32, mask: u32, val: bool) -> (r: u32)
    ensures
        r == with_flag(bits, mask, val),
{
    if val {
        bits | mask
    } else {
        bits & !mask
    }
}

/// The next-descriptor word for a descriptor at `addr`.
pub open spec fn link_of(addr: usize) -> Result<u32, Error> {
    if addr % 4 != 0 {
        Err(Error::Link)
    } else {
        Ok((((addr as int) % 0x1_0000_0000int) / 4) as u32)
    }
}

impl Descriptor {
    /// Maximum length of a descriptor's buffer: 13 bits.
    pub const MAX_LEN: u32 = 0x1fff;

    /// Converts the address of a descriptor into a next-descriptor word.
    ///
    /// Descriptors are 4-byte aligned, so a misaligned address is refused;
    /// the word is the low 32 bits of the address shifted right by two.
    pub fn addr_to_link(addr: usize) -> (r: Result<u32, Error>)
        ensures
            r == link_of(addr),
    {
        if addr & 3 > 0 {
            assert(addr % 4 != 0) by (bit_vector)
                requires addr & 3 > 0;
            return Err(Error::Link);
        }
        let w = addr as u32;
        assert(addr % 4 == 0) by (bit_vector)
            requires !(addr & 3 > 0);
        assert(w as u64 == (addr as u64) % 0x1_0000_0000u64) by (bit_vector)
            requires w == addr as u32;
        assert(w >> 2 == w / 4) by (bit_vector);
        Ok(w >> 2)
    }
}

impl DescriptorBuilder<()> {
    /// A builder with every flag clear and no next descriptor.
    pub fn new() -> (r: Self)
        ensures
            r.cfg == 0,
            r.link == 0,
    {
        DescriptorBuilder { cfg: 0, buff: (), link: 0 }
    }

    /// Sets whether completing this buffer raises no interrupt.
    pub fn disable_irq(self, val: bool) -> (r: Self)
        ensures
            r.cfg == with_flag(self.cfg, CFG_INT_DIS, val),
            r.link == self.link,
    {
        DescriptorBuilder { cfg: set_flag(self.cfg, CFG_INT_DIS, val), ..self }
    }

    /// Sets whether this is the first buffer of the transfer.
    pub fn first(self, val: bool) -> (r: Self)
        ensures
            r.cfg == with_flag(self.cfg, CFG_FIRST, val),
            r.link == self.link,
    {
        DescriptorBuilder { cfg: set_flag(self.cfg, CFG_FIRST, val), ..self }
    }

    /// Sets whether this is the last buffer of the transfer.
    pub fn last(self, val: bool) -> (r: Self)
        ensures
            r.cfg == with_flag(self.cfg, CFG_LAST, val),
            r.link == self.link,
    {
        DescriptorBuilder { cfg: set_flag(self.cfg, CFG_LAST, val), ..self }
    }

    /// Sets the data buffer, at `addr` and `len` bytes long.
    ///
    /// The length must fit in 13 bits and be a multiple of four, and the
    /// address (its low 32 bits) must be 4-byte aligned.
    pub fn buff_slice(self, addr: usize, len: usize) -> (r: Result<DescriptorBuilder<Buffer>, Error>)
        ensures
            len > Descriptor::MAX_LEN ==> r == Err::<DescriptorBuilder<Buffer>, Error>(Error::BufferSize),
            len <= Descriptor::MAX_LEN && len % 4 != 0 ==> r == Err::<DescriptorBuilder<Buffer>, Error>(
                Error::BufferSize,
            ),
            len <= Descriptor::MAX_LEN && len % 4 == 0 && addr % 4 != 0 ==> r == Err::<
                DescriptorBuilder<Buffer>,
                Error,
            >(Error::BufferAddr),
            len <= Descriptor::MAX_LEN && len % 4 == 0 && addr % 4 == 0 ==> r is Ok && r->Ok_0.cfg
                == self.cfg && r->Ok_0.link == self.link && r->Ok_0.buff == (Buffer { addr, len }),
    {
        if len > Descriptor::MAX_LEN as usize {
            return Err(Error::BufferSize);
        }
        if (len & 3) > 0 {
            assert(len % 4 != 0) by (bit_vector)
                requires len & 3 > 0;
            return Err(Error::BufferSize);
        }
        assert(len % 4 == 0) by (bit_vector)
            requires !(len & 3 > 0);
        let a = addr as u32;
        if (a & 3) > 0 {
            assert(addr % 4 != 0) by (bit_vector)
                requires a == addr as u32, a & 3 > 0;
            return Err(Error::BufferAddr);
        }
        assert(addr % 4 == 0) by (bit_vector)
            requires a == addr as u32, !(a & 3 > 0);
        Ok(DescriptorBuilder { cfg: self.cfg, buff: Buffer { addr, len }, link: self.link })
    }

    /// Sets the next descriptor of the chain (`None`: no next descriptor).
    pub fn link(self, link: Option<usize>) -> (r: Result<Self, Error>)
        ensures
            match link {
                None => r is Ok && r->Ok_0.link == 0 && r->Ok_0.cfg == self.cfg,
                Some(addr) => match link_of(addr) {
                    Ok(w) => r is Ok && r->Ok_0.link == w && r->Ok_0.cfg == self.cfg,
                    Err(e) => r == Err::<Self, Error>(e),
                },
            },
    {
        let link = match link {
            None => 0,
            Some(addr) => match Descriptor::addr_to_link(addr) {
                Ok(w) => w,
                Err(e) => return Err(e),
            },
        };
        Ok(DescriptorBuilder { link, ..self })
    }
}

impl DescriptorBuilder<Buffer> {
    /// Builds the descriptor: chained, owned by the IDMAC, with the buffer's
    /// size and word address.
    pub fn build(self) -> (r: Descriptor)
        requires
            self.buff.len <= Descriptor::MAX_LEN,
        ensures
            r.configuration == self.cfg | CFG_CHAIN_MOD | CFG_DES_OWN,
            r.buff_size == self.buff.len,
            r.buff_addr == ((self.buff.addr as int) % 0x1_0000_0000int) / 4,
            r.next_desc == self.link,
    {
        let a = self.buff.addr as u32;
        let ghost addr = self.buff.addr;
        assert(a as u64 == (addr as u64) % 0x1_0000_0000u64) by (bit_vector)
            requires a == addr as u32;
        assert(a >> 2 == a / 4) by (bit_vector);
        Descriptor {
            configuration: self.cfg | CFG_CHAIN_MOD | CFG_DES_OWN,
            buff_size: self.buff.len as u32,
            buff_addr: a >> 2,
            next_desc: self.link,
        }
    }
}

} // verus!
