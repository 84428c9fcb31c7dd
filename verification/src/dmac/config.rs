//! DMAC descriptors assembled from a flat [`DescriptorConfig`], with every
//! field packed by hand into the descriptor words.
use vstd::prelude::*;

use super::descriptor::{
    address_mode_bits, block_size_bits, bmode_bits, data_width_bits, dest_drq_bits, src_drq_bits,
    AddressMode, BModeSel, BlockSize, DataWidth, DestDrqType, SrcDrqType,
};

verus! {

/// A DMAC descriptor as six raw words.
#[derive(Copy, Clone, Debug, PartialEq, Eq, Structural)]
pub struct Descriptor {
    pub configuration: u32,
    pub source_address: u32,
    pub destination_address: u32,
    pub byte_counter: u32,
    pub parameter: u32,
    pub link: u32,
}

/// Everything a DMA transfer is configured with. Addresses are those of the
/// source and destination operands and, if any, of the next descriptor.
#[derive(Copy, Clone, Debug, PartialEq, Eq, Structural)]
pub struct DescriptorConfig {
    pub source: usize,
    pub destination: usize,
    /// At most 2^25 - 1 bytes.
    pub byte_counter: usize,
    pub link: Option<usize>,
    pub wait_clock_cycles: u8,
    pub bmode: BModeSel,
    pub dest_width: DataWidth,
    pub dest_addr_mode: AddressMode,
    pub dest_block_size: BlockSize,
    pub dest_drq_type: DestDrqType,
    pub src_data_width: DataWidth,
    pub src_addr_mode: AddressMode,
    pub src_block_size: BlockSize,
    pub src_drq_type: SrcDrqType,
}

/// The link word meaning "no next descriptor".
pub open spec fn end_link() -> u32 {
    0xFFFF_F800
}

/// The parameter word after placing a source address's high bits.
pub open spec fn with_source_high(param: u32, source: u64) -> u32 {
    (param & 0xfffc_ffff) | ((((source / 0x1_0000_0000) % 4) * 0x1_0000) as u32)
}

/// The parameter word after placing a destination address's high bits.
pub open spec fn with_dest_high(param: u32, dest: u64) -> u32 {
    (param & 0xfff3_ffff) | ((((dest / 0x1_0000_0000) % 4) * 0x4_0000) as u32)
}

/// The configuration word of a transfer configuration: each field masked
/// to its width and shifted to its position.
pub open spec fn config_word(c: DescriptorConfig) -> u32 {
    ((bmode_bits(c.bmode) & 0x1) << 30u32) | ((data_width_bits(c.dest_width) & 0x3) << 25u32) | ((
    address_mode_bits(c.dest_addr_mode) & 0x1) << 24u32) | ((block_size_bits(c.dest_block_size) & 0x3)
        << 22u32) | ((dest_drq_bits(c.dest_drq_type) & 0x3f) << 16u32) | ((data_width_bits(
        c.src_data_width,
    ) & 0x3) << 9u32) | ((address_mode_bits(c.src_addr_mode) & 0x1) << 8u32) | ((block_size_bits(
        c.src_block_size,
    ) & 0x3) << 6u32) | (src_drq_bits(c.src_drq_type) & 0x3f)
}

/// Whether a transfer configuration can be encoded: both operand addresses
/// below 2^34, the byte counter below 2^25, and the next descriptor 4-byte
/// aligned.
pub open spec fn config_valid(c: DescriptorConfig) -> bool {
    &&& c.source < 0x4_0000_0000
    &&& c.destination < 0x4_0000_0000
    &&& c.byte_counter < 0x200_0000
    &&& match c.link {
        Some(l) => l % 4 == 0,
        None => true,
    }
}

/// The link word of a next descriptor at `addr`: the low 32 bits of the
/// address, whose two lowest bits (clear, the address being aligned) carry
/// bits 32 and 33 of the address.
pub open spec fn link_word_of(addr: u64) -> u32 {
    ((addr % 0x1_0000_0000) + ((addr / 0x1_0000_0000) % 4)) as u32
}

impl SrcDrqType {
    /// The source DRQ type field: 6 bits, no shift.
    pub fn to_desc_bits(self) -> (r: u32)
        ensures
            r == src_drq_bits(self) & 0x3f,
    {
        self.bits() & 0x3f
    }
}

impl DestDrqType {
    /// The destination DRQ type field: 6 bits at bit 16.
    pub fn to_desc_bits(self) -> (r: u32)
        ensures
            r == (dest_drq_bits(self) & 0x3f) << 16u32,
    {
        (self.bits() & 0x3f) << 16u32
    }
}

impl BlockSize {
    /// The destination block size field: 2 bits at bit 22.
    pub fn to_desc_bits_dest(self) -> (r: u32)
        ensures
            r == (block_size_bits(self) & 0x3) << 22u32,
    {
        (self.bits() & 0x3) << 22u32
    }

    /// The source block size field: 2 bits at bit 6.
    pub fn to_desc_bits_src(self) -> (r: u32)
        ensures
            r == (block_size_bits(self) & 0x3) << 6u32,
    {
        (self.bits() & 0x3) << 6u32
    }
}

impl AddressMode {
    /// The source address mode field: 1 bit at bit 8.
    pub fn to_desc_bits_src(self) -> (r: u32)
        ensures
            r == (address_mode_bits(self) & 0x1) << 8u32,
    {
        (self.bits() & 0x1) << 8u32
    }

    /// The destination address mode field: 1 bit at bit 24.
    pub fn to_desc_bits_dest(self) -> (r: u32)
        ensures
            r == (address_mode_bits(self) & 0x1) << 24u32,
    {
        (self.bits() & 0x1) << 24u32
    }
}

impl DataWidth {
    /// The destination data width field: 2 bits at bit 25.
    pub fn to_desc_bits_dest(self) -> (r: u32)
        ensures
            r == (data_width_bits(self) & 0x3) << 25u32,
    {
        (self.bits() & 0x3) << 25u32
    }

    /// The source data width field: 2 bits at bit 9.
    pub fn to_desc_bits_src(self) -> (r: u32)
        ensures
            r == (data_width_bits(self) & 0x3) << 9u32,
    {
        (self.bits() & 0x3) << 9u32
    }
}

impl BModeSel {
    /// The `BMODE` select field: 1 bit at bit 30.
    pub fn to_desc_bits(self) -> (r: u32)
        ensures
            r == (bmode_bits(self) & 0x1) << 30u32,
    {
        (self.bits() & 0x1) << 30u32
    }
}

/// The low 32 bits of an address.
pub open spec fn low_word(addr: u64) -> u32 {
    (addr % 0x1_0000_0000) as u32
}

impl Descriptor {
    /// Sets the source address (34 bits): its low 32 bits into the source
    /// word and its two high bits into the parameter word.
    pub fn set_source(&mut self, source: u64)
        requires
            source < 0x4_0000_0000,
        ensures
            *final(self) == (Descriptor {
                source_address: low_word(source),
                parameter: with_source_high(old(self).parameter, source),
                ..*old(self)
            }),
    {
        let p = self.parameter & 0b111111111111_11_00_11111111_11111111;
        let h = (((source >> 32u64) & 0b11) << 16u64) as u32;
        let lo = source as u32;
        assert(h as u64 == ((source / 0x1_0000_0000u64) % 4u64) * 0x1_0000u64 && lo as u64 == source % 0x1_0000_0000u64)
            by (bit_vector)
            requires
                h == (((source >> 32u64) & 0b11) << 16u64) as u32,
                lo == source as u32,
        ;
        self.source_address = lo;
        self.parameter = p | h;
    }

    /// Sets the destination address (34 bits): its low 32 bits into the
    /// destination word and its two high bits into the parameter word.
    pub fn set_dest(&mut self, dest: u64)
        requires
            dest < 0x4_0000_0000,
        ensures
            *final(self) == (Descriptor {
                destination_address: low_word(dest),
                parameter: with_dest_high(old(self).parameter, dest),
                ..*old(self)
            }),
    {
        let p = self.parameter & 0b111111111111_00_11_11111111_11111111;
        let h = (((dest >> 32u64) & 0b11) << 18u64) as u32;
        let lo = dest as u32;
        assert(h as u64 == ((dest / 0x1_0000_0000u64) % 4u64) * 0x4_0000u64 && lo as u64 == dest % 0x1_0000_0000u64)
            by (bit_vector)
            requires
                h == (((dest >> 32u64) & 0b11) << 18u64) as u32,
                lo == dest as u32,
        ;
        self.destination_address = lo;
        self.parameter = p | h;
    }

    /// Marks this descriptor as the last of its chain.
    pub fn end_link(&mut self)
        ensures
            *final(self) == (Descriptor { link: end_link(), ..*old(self) }),
    {
        self.link = 0xFFFF_F800;
    }

    /// Encodes a transfer configuration into a descriptor.
    ///
    /// Fails when an operand address does not fit in 34 bits, the byte
    /// counter in 25 bits, or the next descriptor is not 4-byte aligned.
    pub fn try_from(value: DescriptorConfig) -> (r: Result<Descriptor, ()>)
        ensures
            !config_valid(value) ==> r is Err,
            config_valid(value) ==> r == Ok::<Descriptor, ()>(Descriptor {
                configuration: config_word(value),
                source_address: low_word(value.source as u64),
                destination_address: low_word(value.destination as u64),
                byte_counter: value.byte_counter as u32,
                parameter: with_dest_high(with_source_high(0, value.source as u64), value.destination as u64),
                link: match value.link {
                    Some(l) => link_word_of(l as u64),
                    None => end_link(),
                },
            }),
    {
        let source = value.source as u64;
        let destination = value.destination as u64;
        if source >= 0x4_0000_0000 {
            return Err(());
        }
        if destination >= 0x4_0000_0000 {
            return Err(());
        }
        if value.byte_counter >= 0x200_0000 {
            return Err(());
        }
        if let Some(link) = value.link {
            if (link & 0b11) != 0 {
                assert(link % 4 != 0) by (bit_vector)
                    requires link & 0b11 != 0;
                return Err(());
            }
            assert(link % 4 == 0) by (bit_vector)
                requires link & 0b11 == 0;
        }
        let mut descriptor = Descriptor {
            configuration: 0,
            source_address: 0,
            destination_address: 0,
            byte_counter: 0,
            parameter: 0,
            link: 0,
        };
        descriptor.set_source(source);
        descriptor.set_dest(destination);
        descriptor.byte_counter = value.byte_counter as u32;
        let c0 = value.bmode.to_desc_bits();
        let c1 = value.dest_width.to_desc_bits_dest();
        let c2 = value.dest_addr_mode.to_desc_bits_dest();
        let c3 = value.dest_block_size.to_desc_bits_dest();
        let c4 = value.dest_drq_type.to_desc_bits();
        let c5 = value.src_data_width.to_desc_bits_src();
        let c6 = value.src_addr_mode.to_desc_bits_src();
        let c7 = value.src_block_size.to_desc_bits_src();
        let c8 = value.src_drq_type.to_desc_bits();
        descriptor.configuration = c0 | c1 | c2 | c3 | c4 | c5 | c6 | c7 | c8;
        match value.link {
            Some(link) => {
                let l = link as u64;
                let w = (l as u32) | (((l >> 32u64) as u32) & 0b11);
                assert(w as u64 == l % 0x1_0000_0000u64 + (l / 0x1_0000_0000u64) % 4u64) by (bit_vector)
                    requires
                        w == (l as u32) | (((l >> 32u64) as u32) & 0b11),
                        l % 4u64 == 0u64,
                ;
                descriptor.link = w;
            },
            None => {
                descriptor.end_link();
            },
        }
        Ok(descriptor)
    }
}

} // verus!
