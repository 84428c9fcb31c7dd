//! DMAC descriptors: the in-memory records that configure a DMA transfer,
//! and a builder that checks their operands.
use vstd::prelude::*;

use crate::bitfield::{field, get_field, set_field, valid_field, with_field};

verus! {

/// DMA source DRQ (request) types.
#[derive(Copy, Clone, Debug, PartialEq, Eq, Structural)]
pub enum SrcDrqType {
    Sram,
    Dram,
    OwaRx,
    I2sPcm0Rx,
    I2sPcm1Rx,
    I2sPcm2Rx,
    AudioCodec,
    Dmic,
    GpADC,
    TpADC,
    Uart0Rx,
    Uart1Rx,
    Uart2Rx,
    Uart3Rx,
    Uart4Rx,
    Uart5Rx,
    Spi0Rx,
    Spi1Rx,
    Usb0Ep1,
    Usb0Ep2,
    Usb0Ep3,
    Usb0Ep4,
    Usb0Ep5,
    Twi0,
    Twi1,
    Twi2,
    Twi3,
}

/// The field value of each [`SrcDrqType`].
pub open spec fn src_drq_bits(v: SrcDrqType) -> u32 {
    match v {
        SrcDrqType::Sram => 0,
        SrcDrqType::Dram => 1,
        SrcDrqType::OwaRx => 2,
        SrcDrqType::I2sPcm0Rx => 3,
        SrcDrqType::I2sPcm1Rx => 4,
        SrcDrqType::I2sPcm2Rx => 5,
        SrcDrqType::AudioCodec => 7,
        SrcDrqType::Dmic => 8,
        SrcDrqType::GpADC => 12,
        SrcDrqType::TpADC => 13,
        SrcDrqType::Uart0Rx => 14,
        SrcDrqType::Uart1Rx => 15,
        SrcDrqType::Uart2Rx => 16,
        SrcDrqType::Uart3Rx => 17,
        SrcDrqType::Uart4Rx => 18,
        SrcDrqType::Uart5Rx => 19,
        SrcDrqType::Spi0Rx => 22,
        SrcDrqType::Spi1Rx => 23,
        SrcDrqType::Usb0Ep1 => 30,
        SrcDrqType::Usb0Ep2 => 31,
        SrcDrqType::Usb0Ep3 => 32,
        SrcDrqType::Usb0Ep4 => 33,
        SrcDrqType::Usb0Ep5 => 34,
        SrcDrqType::Twi0 => 43,
        SrcDrqType::Twi1 => 44,
        SrcDrqType::Twi2 => 45,
        SrcDrqType::Twi3 => 46,
    }
}

/// The [`SrcDrqType`], if any, with field value `b`.
pub open spec fn src_drq_bits_decoded(b: u32) -> Option<SrcDrqType> {
    match b {
        0 => Some(SrcDrqType::Sram),
        1 => Some(SrcDrqType::Dram),
        2 => Some(SrcDrqType::OwaRx),
        3 => Some(SrcDrqType::I2sPcm0Rx),
        4 => Some(SrcDrqType::I2sPcm1Rx),
        5 => Some(SrcDrqType::I2sPcm2Rx),
        7 => Some(SrcDrqType::AudioCodec),
        8 => Some(SrcDrqType::Dmic),
        12 => Some(SrcDrqType::GpADC),
        13 => Some(SrcDrqType::TpADC),
        14 => Some(SrcDrqType::Uart0Rx),
        15 => Some(SrcDrqType::Uart1Rx),
        16 => Some(SrcDrqType::Uart2Rx),
        17 => Some(SrcDrqType::Uart3Rx),
        18 => Some(SrcDrqType::Uart4Rx),
        19 => Some(SrcDrqType::Uart5Rx),
        22 => Some(SrcDrqType::Spi0Rx),
        23 => Some(SrcDrqType::Spi1Rx),
        30 => Some(SrcDrqType::Usb0Ep1),
        31 => Some(SrcDrqType::Usb0Ep2),
        32 => Some(SrcDrqType::Usb0Ep3),
        33 => Some(SrcDrqType::Usb0Ep4),
        34 => Some(SrcDrqType::Usb0Ep5),
        43 => Some(SrcDrqType::Twi0),
        44 => Some(SrcDrqType::Twi1),
        45 => Some(SrcDrqType::Twi2),
        46 => Some(SrcDrqType::Twi3),
        _ => None,
    }
}

impl SrcDrqType {
    /// The field value of this variant.
    pub fn bits(&self) -> (r: u32)
        ensures
            r == src_drq_bits(*self),
    {
        match self {
            SrcDrqType::Sram => 0,
            SrcDrqType::Dram => 1,
            SrcDrqType::OwaRx => 2,
            SrcDrqType::I2sPcm0Rx => 3,
            SrcDrqType::I2sPcm1Rx => 4,
            SrcDrqType::I2sPcm2Rx => 5,
            SrcDrqType::AudioCodec => 7,
            SrcDrqType::Dmic => 8,
            SrcDrqType::GpADC => 12,
            SrcDrqType::TpADC => 13,
            SrcDrqType::Uart0Rx => 14,
            SrcDrqType::Uart1Rx => 15,
            SrcDrqType::Uart2Rx => 16,
            SrcDrqType::Uart3Rx => 17,
            SrcDrqType::Uart4Rx => 18,
            SrcDrqType::Uart5Rx => 19,
            SrcDrqType::Spi0Rx => 22,
            SrcDrqType::Spi1Rx => 23,
            SrcDrqType::Usb0Ep1 => 30,
            SrcDrqType::Usb0Ep2 => 31,
            SrcDrqType::Usb0Ep3 => 32,
            SrcDrqType::Usb0Ep4 => 33,
            SrcDrqType::Usb0Ep5 => 34,
            SrcDrqType::Twi0 => 43,
            SrcDrqType::Twi1 => 44,
            SrcDrqType::Twi2 => 45,
            SrcDrqType::Twi3 => 46,
        }
    }

    /// Decodes a field value.
    pub fn from_bits(b: u32) -> (r: Option<SrcDrqType>)
        ensures
            r == src_drq_bits_decoded(b),
    {
        match b {
            0 => Some(SrcDrqType::Sram),
            1 => Some(SrcDrqType::Dram),
            2 => Some(SrcDrqType::OwaRx),
            3 => Some(SrcDrqType::I2sPcm0Rx),
            4 => Some(SrcDrqType::I2sPcm1Rx),
            5 => Some(SrcDrqType::I2sPcm2Rx),
            7 => Some(SrcDrqType::AudioCodec),
            8 => Some(SrcDrqType::Dmic),
            12 => Some(SrcDrqType::GpADC),
            13 => Some(SrcDrqType::TpADC),
            14 => Some(SrcDrqType::Uart0Rx),
            15 => Some(SrcDrqType::Uart1Rx),
            16 => Some(SrcDrqType::Uart2Rx),
            17 => Some(SrcDrqType::Uart3Rx),
            18 => Some(SrcDrqType::Uart4Rx),
            19 => Some(SrcDrqType::Uart5Rx),
            22 => Some(SrcDrqType::Spi0Rx),
            23 => Some(SrcDrqType::Spi1Rx),
            30 => Some(SrcDrqType::Usb0Ep1),
            31 => Some(SrcDrqType::Usb0Ep2),
            32 => Some(SrcDrqType::Usb0Ep3),
            33 => Some(SrcDrqType::Usb0Ep4),
            34 => Some(SrcDrqType::Usb0Ep5),
            43 => Some(SrcDrqType::Twi0),
            44 => Some(SrcDrqType::Twi1),
            45 => Some(SrcDrqType::Twi2),
            46 => Some(SrcDrqType::Twi3),
            _ => None,
        }
    }
}

/// Field values decode back to the variant they came from.
pub proof fn lemma_src_drq_bits_roundtrip(v: SrcDrqType)
    ensures
        src_drq_bits_decoded(src_drq_bits(v)) == Some(v),
{
}

/// DMA destination DRQ (request) types.
#[derive(Copy, Clone, Debug, PartialEq, Eq, Structural)]
pub enum DestDrqType {
    Sram,
    Dram,
    OwaTx,
    I2sPcm0Tx,
    I2sPcm1Tx,
    I2sPcm2Tx,
    AudioCodec,
    IrTx,
    Uart0Tx,
    Uart1Tx,
    Uart2Tx,
    Uart3Tx,
    Uart4Tx,
    Uart5Tx,
    Spi0Tx,
    Spi1Tx,
    Usb0Ep1,
    Usb0Ep2,
    Usb0Ep3,
    Usb0Ep4,
    Usb0Ep5,
    Ledc,
    Twi0,
    Twi1,
    Twi2,
    Twi3,
}

/// The field value of each [`DestDrqType`].
pub open spec fn dest_drq_bits(v: DestDrqType) -> u32 {
    match v {
        DestDrqType::Sram => 0,
        DestDrqType::Dram => 1,
        DestDrqType::OwaTx => 2,
        DestDrqType::I2sPcm0Tx => 3,
        DestDrqType::I2sPcm1Tx => 4,
        DestDrqType::I2sPcm2Tx => 5,
        DestDrqType::AudioCodec => 7,
        DestDrqType::IrTx => 13,
        DestDrqType::Uart0Tx => 14,
        DestDrqType::Uart1Tx => 15,
        DestDrqType::Uart2Tx => 16,
        DestDrqType::Uart3Tx => 17,
        DestDrqType::Uart4Tx => 18,
        DestDrqType::Uart5Tx => 19,
        DestDrqType::Spi0Tx => 22,
        DestDrqType::Spi1Tx => 23,
        DestDrqType::Usb0Ep1 => 30,
        DestDrqType::Usb0Ep2 => 31,
        DestDrqType::Usb0Ep3 => 32,
        DestDrqType::Usb0Ep4 => 33,
        DestDrqType::Usb0Ep5 => 34,
        DestDrqType::Ledc => 42,
        DestDrqType::Twi0 => 43,
        DestDrqType::Twi1 => 44,
        DestDrqType::Twi2 => 45,
        DestDrqType::Twi3 => 46,
    }
}

/// The [`DestDrqType`], if any, with field value `b`.
pub open spec fn dest_drq_bits_decoded(b: u32) -> Option<DestDrqType> {
    match b {
        0 => Some(DestDrqType::Sram),
        1 => Some(DestDrqType::Dram),
        2 => Some(DestDrqType::OwaTx),
        3 => Some(DestDrqType::I2sPcm0Tx),
        4 => Some(DestDrqType::I2sPcm1Tx),
        5 => Some(DestDrqType::I2sPcm2Tx),
        7 => Some(DestDrqType::AudioCodec),
        13 => Some(DestDrqType::IrTx),
        14 => Some(DestDrqType::Uart0Tx),
        15 => Some(DestDrqType::Uart1Tx),
        16 => Some(DestDrqType::Uart2Tx),
        17 => Some(DestDrqType::Uart3Tx),
        18 => Some(DestDrqType::Uart4Tx),
        19 => Some(DestDrqType::Uart5Tx),
        22 => Some(DestDrqType::Spi0Tx),
        23 => Some(DestDrqType::Spi1Tx),
        30 => Some(DestDrqType::Usb0Ep1),
        31 => Some(DestDrqType::Usb0Ep2),
        32 => Some(DestDrqType::Usb0Ep3),
        33 => Some(DestDrqType::Usb0Ep4),
        34 => Some(DestDrqType::Usb0Ep5),
        42 => Some(DestDrqType::Ledc),
        43 => Some(DestDrqType::Twi0),
        44 => Some(DestDrqType::Twi1),
        45 => Some(DestDrqType::Twi2),
        46 => Some(DestDrqType::Twi3),
        _ => None,
    }
}

impl DestDrqType {
    /// The field value of this variant.
    pub fn bits(&self) -> (r: u32)
        ensures
            r == dest_drq_bits(*self),
    {
        match self {
            DestDrqType::Sram => 0,
            DestDrqType::Dram => 1,
            DestDrqType::OwaTx => 2,
            DestDrqType::I2sPcm0Tx => 3,
            DestDrqType::I2sPcm1Tx => 4,
            DestDrqType::I2sPcm2Tx => 5,
            DestDrqType::AudioCodec => 7,
            DestDrqType::IrTx => 13,
            DestDrqType::Uart0Tx => 14,
            DestDrqType::Uart1Tx => 15,
            DestDrqType::Uart2Tx => 16,
            DestDrqType::Uart3Tx => 17,
            DestDrqType::Uart4Tx => 18,
            DestDrqType::Uart5Tx => 19,
            DestDrqType::Spi0Tx => 22,
            DestDrqType::Spi1Tx => 23,
            DestDrqType::Usb0Ep1 => 30,
            DestDrqType::Usb0Ep2 => 31,
            DestDrqType::Usb0Ep3 => 32,
            DestDrqType::Usb0Ep4 => 33,
            DestDrqType::Usb0Ep5 => 34,
            DestDrqType::Ledc => 42,
            DestDrqType::Twi0 => 43,
            DestDrqType::Twi1 => 44,
            DestDrqType::Twi2 => 45,
            DestDrqType::Twi3 => 46,
        }
    }

    /// Decodes a field value.
    pub fn from_bits(b: u32) -> (r: Option<DestDrqType>)
        ensures
            r == dest_drq_bits_decoded(b),
    {
        match b {
            0 => Some(DestDrqType::Sram),
            1 => Some(DestDrqType::Dram),
            2 => Some(DestDrqType::OwaTx),
            3 => Some(DestDrqType::I2sPcm0Tx),
            4 => Some(DestDrqType::I2sPcm1Tx),
            5 => Some(DestDrqType::I2sPcm2Tx),
            7 => Some(DestDrqType::AudioCodec),
            13 => Some(DestDrqType::IrTx),
            14 => Some(DestDrqType::Uart0Tx),
            15 => Some(DestDrqType::Uart1Tx),
            16 => Some(DestDrqType::Uart2Tx),
            17 => Some(DestDrqType::Uart3Tx),
            18 => Some(DestDrqType::Uart4Tx),
            19 => Some(DestDrqType::Uart5Tx),
            22 => Some(DestDrqType::Spi0Tx),
            23 => Some(DestDrqType::Spi1Tx),
            30 => Some(DestDrqType::Usb0Ep1),
            31 => Some(DestDrqType::Usb0Ep2),
            32 => Some(DestDrqType::Usb0Ep3),
            33 => Some(DestDrqType::Usb0Ep4),
            34 => Some(DestDrqType::Usb0Ep5),
            42 => Some(DestDrqType::Ledc),
            43 => Some(DestDrqType::Twi0),
            44 => Some(DestDrqType::Twi1),
            45 => Some(DestDrqType::Twi2),
            46 => Some(DestDrqType::Twi3),
            _ => None,
        }
    }
}

/// Field values decode back to the variant they came from.
pub proof fn lemma_dest_drq_bits_roundtrip(v: DestDrqType)
    ensures
        dest_drq_bits_decoded(dest_drq_bits(v)) == Some(v),
{
}

/// DMA block sizes.
#[derive(Copy, Clone, Debug, PartialEq, Eq, Structural)]
pub enum BlockSize {
    Byte1,
    Byte4,
    Byte8,
    Byte16,
}

/// The field value of each [`BlockSize`].
pub open spec fn block_size_bits(v: BlockSize) -> u32 {
    match v {
        BlockSize::Byte1 => 0,
        BlockSize::Byte4 => 1,
        BlockSize::Byte8 => 2,
        BlockSize::Byte16 => 3,
    }
}

/// The [`BlockSize`], if any, with field value `b`.
pub open spec fn block_size_bits_decoded(b: u32) -> Option<BlockSize> {
    match b {
        0 => Some(BlockSize::Byte1),
        1 => Some(BlockSize::Byte4),
        2 => Some(BlockSize::Byte8),
        3 => Some(BlockSize::Byte16),
        _ => None,
    }
}

impl BlockSize {
    /// The field value of this variant.
    pub fn bits(&self) -> (r: u32)
        ensures
            r == block_size_bits(*self),
    {
        match self {
            BlockSize::Byte1 => 0,
            BlockSize::Byte4 => 1,
            BlockSize::Byte8 => 2,
            BlockSize::Byte16 => 3,
        }
    }

    /// Decodes a field value.
    pub fn from_bits(b: u32) -> (r: Option<BlockSize>)
        ensures
            r == block_size_bits_decoded(b),
    {
        match b {
            0 => Some(BlockSize::Byte1),
            1 => Some(BlockSize::Byte4),
            2 => Some(BlockSize::Byte8),
            3 => Some(BlockSize::Byte16),
            _ => None,
        }
    }
}

/// Field values decode back to the variant they came from.
pub proof fn lemma_block_size_bits_roundtrip(v: BlockSize)
    ensures
        block_size_bits_decoded(block_size_bits(v)) == Some(v),
{
}

/// DMA address modes: linear (memory) or I/O (a fixed register).
#[derive(Copy, Clone, Debug, PartialEq, Eq, Structural)]
pub enum AddressMode {
    LinearMode,
    IoMode,
}

/// The field value of each [`AddressMode`].
pub open spec fn address_mode_bits(v: AddressMode) -> u32 {
    match v {
        AddressMode::LinearMode => 0,
        AddressMode::IoMode => 1,
    }
}

/// The [`AddressMode`], if any, with field value `b`.
pub open spec fn address_mode_bits_decoded(b: u32) -> Option<AddressMode> {
    match b {
        0 => Some(AddressMode::LinearMode),
        1 => Some(AddressMode::IoMode),
        _ => None,
    }
}

impl AddressMode {
    /// The field value of this variant.
    pub fn bits(&self) -> (r: u32)
        ensures
            r == address_mode_bits(*self),
    {
        match self {
            AddressMode::LinearMode => 0,
            AddressMode::IoMode => 1,
        }
    }

    /// Decodes a field value.
    pub fn from_bits(b: u32) -> (r: Option<AddressMode>)
        ensures
            r == address_mode_bits_decoded(b),
    {
        match b {
            0 => Some(AddressMode::LinearMode),
            1 => Some(AddressMode::IoMode),
            _ => None,
        }
    }
}

/// Field values decode back to the variant they came from.
pub proof fn lemma_address_mode_bits_roundtrip(v: AddressMode)
    ensures
        address_mode_bits_decoded(address_mode_bits(v)) == Some(v),
{
}

/// DMA data widths.
#[derive(Copy, Clone, Debug, PartialEq, Eq, Structural)]
pub enum DataWidth {
    Bit8,
    Bit16,
    Bit32,
    Bit64,
}

/// The field value of each [`DataWidth`].
pub open spec fn data_width_bits(v: DataWidth) -> u32 {
    match v {
        DataWidth::Bit8 => 0,
        DataWidth::Bit16 => 1,
        DataWidth::Bit32 => 2,
        DataWidth::Bit64 => 3,
    }
}

/// The [`DataWidth`], if any, with field value `b`.
pub open spec fn data_width_bits_decoded(b: u32) -> Option<DataWidth> {
    match b {
        0 => Some(DataWidth::Bit8),
        1 => Some(DataWidth::Bit16),
        2 => Some(DataWidth::Bit32),
        3 => Some(DataWidth::Bit64),
        _ => None,
    }
}

impl DataWidth {
    /// The field value of this variant.
    pub fn bits(&self) -> (r: u32)
        ensures
            r == data_width_bits(*self),
    {
        match self {
            DataWidth::Bit8 => 0,
            DataWidth::Bit16 => 1,
            DataWidth::Bit32 => 2,
            DataWidth::Bit64 => 3,
        }
    }

    /// Decodes a field value.
    pub fn from_bits(b: u32) -> (r: Option<DataWidth>)
        ensures
            r == data_width_bits_decoded(b),
    {
        match b {
            0 => Some(DataWidth::Bit8),
            1 => Some(DataWidth::Bit16),
            2 => Some(DataWidth::Bit32),
            3 => Some(DataWidth::Bit64),
            _ => None,
        }
    }
}

/// Field values decode back to the variant they came from.
pub proof fn lemma_data_width_bits_roundtrip(v: DataWidth)
    ensures
        data_width_bits_decoded(data_width_bits(v)) == Some(v),
{
}

/// `BMODE` selection.
#[derive(Copy, Clone, Debug, PartialEq, Eq, Structural)]
pub enum BModeSel {
    Normal,
    BMode,
}

/// The field value of each [`BModeSel`].
pub open spec fn bmode_bits(v: BModeSel) -> u32 {
    match v {
        BModeSel::Normal => 0,
        BModeSel::BMode => 1,
    }
}

/// The [`BModeSel`], if any, with field value `b`.
pub open spec fn bmode_bits_decoded(b: u32) -> Option<BModeSel> {
    match b {
        0 => Some(BModeSel::Normal),
        1 => Some(BModeSel::BMode),
        _ => None,
    }
}

impl BModeSel {
    /// The field value of this variant.
    pub fn bits(&self) -> (r: u32)
        ensures
            r == bmode_bits(*self),
    {
        match self {
            BModeSel::Normal => 0,
            BModeSel::BMode => 1,
        }
    }

    /// Decodes a field value.
    pub fn from_bits(b: u32) -> (r: Option<BModeSel>)
        ensures
            r == bmode_bits_decoded(b),
    {
        match b {
            0 => Some(BModeSel::Normal),
            1 => Some(BModeSel::BMode),
            _ => None,
        }
    }
}

/// Field values decode back to the variant they came from.
pub proof fn lemma_bmode_bits_roundtrip(v: BModeSel)
    ensures
        bmode_bits_decoded(bmode_bits(v)) == Some(v),
{
}


/// Each DRQ type's field value is the D1 DMA request line of its
/// peripheral (the D1 manual's DRQ table): memory, audio, ADCs, the UARTs
/// from 14, the SPIs at 22 and 23, the USB endpoints from 30, the LED
/// controller at 42 and the TWIs from 43.
pub proof fn lemma_drq_lines()
    ensures
        src_drq_bits(SrcDrqType::Sram) == 0 && src_drq_bits(SrcDrqType::Dram) == 1,
        src_drq_bits(SrcDrqType::OwaRx) == 2 && src_drq_bits(SrcDrqType::I2sPcm0Rx) == 3,
        src_drq_bits(SrcDrqType::I2sPcm1Rx) == 4 && src_drq_bits(SrcDrqType::I2sPcm2Rx) == 5,
        src_drq_bits(SrcDrqType::AudioCodec) == 7 && src_drq_bits(SrcDrqType::Dmic) == 8,
        src_drq_bits(SrcDrqType::GpADC) == 12 && src_drq_bits(SrcDrqType::TpADC) == 13,
        src_drq_bits(SrcDrqType::Uart0Rx) == 14 && src_drq_bits(SrcDrqType::Uart1Rx) == 15,
        src_drq_bits(SrcDrqType::Uart2Rx) == 16 && src_drq_bits(SrcDrqType::Uart3Rx) == 17,
        src_drq_bits(SrcDrqType::Uart4Rx) == 18 && src_drq_bits(SrcDrqType::Uart5Rx) == 19,
        src_drq_bits(SrcDrqType::Spi0Rx) == 22 && src_drq_bits(SrcDrqType::Spi1Rx) == 23,
        src_drq_bits(SrcDrqType::Usb0Ep1) == 30 && src_drq_bits(SrcDrqType::Usb0Ep2) == 31,
        src_drq_bits(SrcDrqType::Usb0Ep3) == 32 && src_drq_bits(SrcDrqType::Usb0Ep4) == 33,
        src_drq_bits(SrcDrqType::Usb0Ep5) == 34,
        src_drq_bits(SrcDrqType::Twi0) == 43 && src_drq_bits(SrcDrqType::Twi1) == 44,
        src_drq_bits(SrcDrqType::Twi2) == 45 && src_drq_bits(SrcDrqType::Twi3) == 46,
        dest_drq_bits(DestDrqType::Sram) == 0 && dest_drq_bits(DestDrqType::Dram) == 1,
        dest_drq_bits(DestDrqType::OwaTx) == 2 && dest_drq_bits(DestDrqType::I2sPcm0Tx) == 3,
        dest_drq_bits(DestDrqType::I2sPcm1Tx) == 4 && dest_drq_bits(DestDrqType::I2sPcm2Tx) == 5,
        dest_drq_bits(DestDrqType::AudioCodec) == 7 && dest_drq_bits(DestDrqType::IrTx) == 13,
        dest_drq_bits(DestDrqType::Uart0Tx) == 14 && dest_drq_bits(DestDrqType::Uart1Tx) == 15,
        dest_drq_bits(DestDrqType::Uart2Tx) == 16 && dest_drq_bits(DestDrqType::Uart3Tx) == 17,
        dest_drq_bits(DestDrqType::Uart4Tx) == 18 && dest_drq_bits(DestDrqType::Uart5Tx) == 19,
        dest_drq_bits(DestDrqType::Spi0Tx) == 22 && dest_drq_bits(DestDrqType::Spi1Tx) == 23,
        dest_drq_bits(DestDrqType::Usb0Ep1) == 30 && dest_drq_bits(DestDrqType::Usb0Ep2) == 31,
        dest_drq_bits(DestDrqType::Usb0Ep3) == 32 && dest_drq_bits(DestDrqType::Usb0Ep4) == 33,
        dest_drq_bits(DestDrqType::Usb0Ep5) == 34 && dest_drq_bits(DestDrqType::Ledc) == 42,
        dest_drq_bits(DestDrqType::Twi0) == 43 && dest_drq_bits(DestDrqType::Twi1) == 44,
        dest_drq_bits(DestDrqType::Twi2) == 45 && dest_drq_bits(DestDrqType::Twi3) == 46,
{
}

/// The remaining configuration fields hold the hardware's codes: block
/// sizes 1, 4, 8 and 16 bytes as 0 to 3, data widths 8 to 64 bits as 0 to
/// 3, linear addressing 0 and I/O addressing 1, normal mode 0 and BMODE 1.
pub proof fn lemma_field_codes()
    ensures
        block_size_bits(BlockSize::Byte1) == 0 && block_size_bits(BlockSize::Byte4) == 1,
        block_size_bits(BlockSize::Byte8) == 2 && block_size_bits(BlockSize::Byte16) == 3,
        data_width_bits(DataWidth::Bit8) == 0 && data_width_bits(DataWidth::Bit16) == 1,
        data_width_bits(DataWidth::Bit32) == 2 && data_width_bits(DataWidth::Bit64) == 3,
        address_mode_bits(AddressMode::LinearMode) == 0 && address_mode_bits(AddressMode::IoMode) == 1,
        bmode_bits(BModeSel::Normal) == 0 && bmode_bits(BModeSel::BMode) == 1,
{
}

/// Setting every field of a zeroed configuration word, in any order, packs
/// each field's value at its place: the layout of [`packed_cfg`].
pub proof fn lemma_pack_configuration(
    src_drq: SrcDrqType,
    src_block: BlockSize,
    src_mode: AddressMode,
    src_width: DataWidth,
    dest_drq: DestDrqType,
    dest_block: BlockSize,
    dest_mode: AddressMode,
    dest_width: DataWidth,
    bmode: BModeSel,
)
    ensures
        set_field(set_field(set_field(set_field(set_field(set_field(set_field(set_field(set_field(0,
            6, 2, block_size_bits(src_block)), 9, 2, data_width_bits(src_width)), 22, 2,
            block_size_bits(dest_block)), 25, 2, data_width_bits(dest_width)), 30, 1, bmode_bits(bmode)),
            8, 1, address_mode_bits(src_mode)), 24, 1, address_mode_bits(dest_mode)), 0, 6,
            src_drq_bits(src_drq)), 16, 6, dest_drq_bits(dest_drq)) == packed_cfg(
            src_drq_bits(src_drq),
            block_size_bits(src_block),
            address_mode_bits(src_mode),
            data_width_bits(src_width),
            dest_drq_bits(dest_drq),
            block_size_bits(dest_block),
            address_mode_bits(dest_mode),
            data_width_bits(dest_width),
            bmode_bits(bmode),
        ),
{
    let sd = src_drq_bits(src_drq);
    let sb = block_size_bits(src_block);
    let sm = address_mode_bits(src_mode);
    let sw = data_width_bits(src_width);
    let dd = dest_drq_bits(dest_drq);
    let db = block_size_bits(dest_block);
    let dm = address_mode_bits(dest_mode);
    let dw = data_width_bits(dest_width);
    let bm = bmode_bits(bmode);
    assert(set_field(set_field(set_field(set_field(set_field(set_field(set_field(set_field(set_field(
        0, 6, 2, sb), 9, 2, sw), 22, 2, db), 25, 2, dw), 30, 1, bm), 8, 1, sm), 24, 1, dm), 0, 6, sd),
        16, 6, dd) == packed_cfg(sd, sb, sm, sw, dd, db, dm, dw, bm)) by (bit_vector)
        requires
            sd < 64, sb < 4, sm < 2, sw < 4, dd < 64, db < 4, dm < 2, dw < 4, bm < 2,
    ;
}

/// Setting the wait cycles and the two high address fields of a zeroed
/// parameter word packs them at their places: the layout of
/// [`packed_param`].
pub proof fn lemma_pack_param(wait: u8, src_high: u32, dest_high: u32)
    requires
        src_high < 4,
        dest_high < 4,
    ensures
        set_field(set_field(set_field(0, 0, 8, wait as u32), 16, 2, src_high), 18, 2, dest_high)
            == packed_param(wait as u32, src_high, dest_high),
{
    let w = wait as u32;
    assert(set_field(set_field(set_field(0, 0, 8, w), 16, 2, src_high), 18, 2, dest_high)
        == packed_param(w, src_high, dest_high)) by (bit_vector)
        requires w < 256, src_high < 4, dest_high < 4;
}

/// A DMAC descriptor `Configuration` word.
///
/// Fields, from bit 0: source DRQ type (6 bits), source block size (2),
/// source address mode (1), source data width (2), 5 reserved bits,
/// destination DRQ type (6), destination block size (2), destination
/// address mode (1), destination data width (2), 3 reserved bits, and the
/// `BMODE` select (1).
#[derive(Copy, Clone, Debug, PartialEq, Eq, Structural)]
pub struct Cfg {
    pub bits: u32,
}

/// A DMAC descriptor `Parameter` word.
///
/// Fields, from bit 0: wait clock cycles (8 bits), 8 reserved bits, the
/// highest two bits of the 34-bit source address (2) and of the destination
/// address (2).
#[derive(Copy, Clone, Debug, PartialEq, Eq, Structural)]
pub struct Param {
    pub bits: u32,
}

/// The configuration word with every field set: the layout of [`Cfg`].
pub open spec fn packed_cfg(
    src_drq: u32,
    src_block: u32,
    src_mode: u32,
    src_width: u32,
    dest_drq: u32,
    dest_block: u32,
    dest_mode: u32,
    dest_width: u32,
    bmode: u32,
) -> u32 {
    src_drq | (src_block << 6u32) | (src_mode << 8u32) | (src_width << 9u32) | (dest_drq << 16u32) | (
    dest_block << 22u32) | (dest_mode << 24u32) | (dest_width << 25u32) | (bmode << 30u32)
}

/// The parameter word with every field set: the layout of [`Param`].
pub open spec fn packed_param(wait: u32, src_high: u32, dest_high: u32) -> u32 {
    wait | (src_high << 16u32) | (dest_high << 18u32)
}

impl Cfg {
    /// A configuration with every field zero.
    pub fn new() -> (r: Cfg)
        ensures
            r.bits == 0,
    {
        Cfg { bits: 0 }
    }

    /// The configuration word.
    pub fn bits(&self) -> (r: u32)
        ensures
            r == self.bits,
    {
        self.bits
    }

    /// Checks that the fields of the configuration word lie within 32 bits
    /// and do not overlap one another.
    pub fn assert_valid() -> (r: bool)
        ensures
            r,
    {
        // Each field's mask, and the union of the masks of the fields before it.
        let masks: [u32; 9] = [0x3f, 0xc0, 0x100, 0x600, 0x3f_0000, 0xc0_0000, 0x100_0000, 0x600_0000, 0x4000_0000];
        let ok = (masks[0] & masks[1]) == 0 && ((masks[0] | masks[1]) & masks[2]) == 0 && ((
        masks[0] | masks[1] | masks[2]) & masks[3]) == 0 && ((masks[0] | masks[1] | masks[2]
            | masks[3]) & masks[4]) == 0 && ((masks[0] | masks[1] | masks[2] | masks[3] | masks[4])
            & masks[5]) == 0 && ((masks[0] | masks[1] | masks[2] | masks[3] | masks[4] | masks[5])
            & masks[6]) == 0 && ((masks[0] | masks[1] | masks[2] | masks[3] | masks[4] | masks[5]
            | masks[6]) & masks[7]) == 0 && ((masks[0] | masks[1] | masks[2] | masks[3] | masks[4]
            | masks[5] | masks[6] | masks[7]) & masks[8]) == 0;
        assert(ok) by (bit_vector)
            requires
                ok == ((0x3fu32 & 0xc0u32) == 0 && ((0x3fu32 | 0xc0u32) & 0x100u32) == 0 && ((0x3fu32
                    | 0xc0u32 | 0x100u32) & 0x600u32) == 0 && ((0x3fu32 | 0xc0u32 | 0x100u32
                    | 0x600u32) & 0x3f_0000u32) == 0 && ((0x3fu32 | 0xc0u32 | 0x100u32 | 0x600u32
                    | 0x3f_0000u32) & 0xc0_0000u32) == 0 && ((0x3fu32 | 0xc0u32 | 0x100u32
                    | 0x600u32 | 0x3f_0000u32 | 0xc0_0000u32) & 0x100_0000u32) == 0 && ((0x3fu32
                    | 0xc0u32 | 0x100u32 | 0x600u32 | 0x3f_0000u32 | 0xc0_0000u32 | 0x100_0000u32)
                    & 0x600_0000u32) == 0 && ((0x3fu32 | 0xc0u32 | 0x100u32 | 0x600u32
                    | 0x3f_0000u32 | 0xc0_0000u32 | 0x100_0000u32 | 0x600_0000u32) & 0x4000_0000u32)
                    == 0),
        ;
        ok
    }

    /// Sets the source DRQ type.
    pub fn with_src_drq_type(self, v: SrcDrqType) -> (r: Cfg)
        ensures
            r.bits == set_field(self.bits, 0, 6, src_drq_bits(v)),
    {
        Cfg { bits: with_field(self.bits, 0, 6, v.bits()) }
    }

    /// Sets the source block size.
    pub fn with_src_block_size(self, v: BlockSize) -> (r: Cfg)
        ensures
            r.bits == set_field(self.bits, 6, 2, block_size_bits(v)),
    {
        Cfg { bits: with_field(self.bits, 6, 2, v.bits()) }
    }

    /// Sets the source address mode.
    pub fn with_src_addr_mode(self, v: AddressMode) -> (r: Cfg)
        ensures
            r.bits == set_field(self.bits, 8, 1, address_mode_bits(v)),
    {
        Cfg { bits: with_field(self.bits, 8, 1, v.bits()) }
    }

    /// Sets the source data width.
    pub fn with_src_data_width(self, v: DataWidth) -> (r: Cfg)
        ensures
            r.bits == set_field(self.bits, 9, 2, data_width_bits(v)),
    {
        Cfg { bits: with_field(self.bits, 9, 2, v.bits()) }
    }

    /// Sets the destination DRQ type.
    pub fn with_dest_drq_type(self, v: DestDrqType) -> (r: Cfg)
        ensures
            r.bits == set_field(self.bits, 16, 6, dest_drq_bits(v)),
    {
        Cfg { bits: with_field(self.bits, 16, 6, v.bits()) }
    }

    /// Sets the destination block size.
    pub fn with_dest_block_size(self, v: BlockSize) -> (r: Cfg)
        ensures
            r.bits == set_field(self.bits, 22, 2, block_size_bits(v)),
    {
        Cfg { bits: with_field(self.bits, 22, 2, v.bits()) }
    }

    /// Sets the destination address mode.
    pub fn with_dest_addr_mode(self, v: AddressMode) -> (r: Cfg)
        ensures
            r.bits == set_field(self.bits, 24, 1, address_mode_bits(v)),
    {
        Cfg { bits: with_field(self.bits, 24, 1, v.bits()) }
    }

    /// Sets the destination data width.
    pub fn with_dest_data_width(self, v: DataWidth) -> (r: Cfg)
        ensures
            r.bits == set_field(self.bits, 25, 2, data_width_bits(v)),
    {
        Cfg { bits: with_field(self.bits, 25, 2, v.bits()) }
    }

    /// Sets the `BMODE` select.
    pub fn with_bmode_sel(self, v: BModeSel) -> (r: Cfg)
        ensures
            r.bits == set_field(self.bits, 30, 1, bmode_bits(v)),
    {
        Cfg { bits: with_field(self.bits, 30, 1, v.bits()) }
    }

    /// The source DRQ type, if the field holds a known one.
    pub fn src_drq_type(&self) -> (r: Option<SrcDrqType>)
        ensures
            r == src_drq_bits_decoded(get_field(self.bits, 0, 6)),
    {
        SrcDrqType::from_bits(field(self.bits, 0, 6))
    }

    /// The destination DRQ type, if the field holds a known one.
    pub fn dest_drq_type(&self) -> (r: Option<DestDrqType>)
        ensures
            r == dest_drq_bits_decoded(get_field(self.bits, 16, 6)),
    {
        DestDrqType::from_bits(field(self.bits, 16, 6))
    }
}

impl Param {
    /// A parameter word with every field zero.
    pub fn new() -> (r: Param)
        ensures
            r.bits == 0,
    {
        Param { bits: 0 }
    }

    /// The parameter word.
    pub fn bits(&self) -> (r: u32)
        ensures
            r == self.bits,
    {
        self.bits
    }

    /// Sets the wait clock cycles (the wait time in DRQ mode).
    pub fn with_wait_clock_cycles(self, v: u8) -> (r: Param)
        ensures
            r.bits == set_field(self.bits, 0, 8, v as u32),
    {
        Param { bits: with_field(self.bits, 0, 8, v as u32) }
    }

    /// Sets the highest two bits of the 34-bit source address.
    pub fn with_src_high(self, v: u32) -> (r: Param)
        ensures
            r.bits == set_field(self.bits, 16, 2, v),
    {
        Param { bits: with_field(self.bits, 16, 2, v) }
    }

    /// Sets the highest two bits of the 34-bit destination address.
    pub fn with_dest_high(self, v: u32) -> (r: Param)
        ensures
            r.bits == set_field(self.bits, 18, 2, v),
    {
        Param { bits: with_field(self.bits, 18, 2, v) }
    }
}


/// A DMAC descriptor: six 32-bit words read by the DMAC.
#[derive(Copy, Clone, Debug, PartialEq, Eq, Structural)]
pub struct Descriptor {
    pub configuration: Cfg,
    pub source_address: u32,
    pub destination_address: u32,
    pub byte_counter: u32,
    pub parameter: Param,
    pub link: u32,
}

/// Errors returned by the `build` methods of [`DescriptorBuilder`].
#[derive(Copy, Clone, Debug, PartialEq, Eq, Structural)]
pub enum InvalidDescriptor {
    ByteCounterTooLong(usize),
    LinkAddr(InvalidLink),
}

/// Why an operand of a DMA transfer was refused.
#[derive(Copy, Clone, Debug, PartialEq, Eq, Structural)]
pub enum InvalidOperandReason {
    /// The operand's address exceeds [`Descriptor::ADDR_MAX`] (34 bits).
    AddrTooHigh(usize),
    /// A slice was longer than [`Descriptor::MAX_LEN`] (25 bits).
    TooLong(usize),
}

/// The side of a DMA transfer an operand is on.
#[derive(Copy, Clone, Debug, PartialEq, Eq, Structural)]
pub enum Operand {
    Source,
    Destination,
}

/// Errors returned when setting the source or destination of a transfer.
#[derive(Copy, Clone, Debug, PartialEq, Eq, Structural)]
pub struct InvalidOperand {
    pub reason: InvalidOperandReason,
    pub kind: Operand,
}

/// Errors returned when linking descriptors.
#[derive(Copy, Clone, Debug, PartialEq, Eq, Structural)]
pub enum InvalidLink {
    TooLong(usize),
    Misaligned(usize),
}

impl InvalidOperand {
    /// Whether this error concerns the source or destination operand.
    pub fn operand(&self) -> (r: Operand)
        ensures
            r == self.kind,
    {
        self.kind
    }

    /// Why the operand was invalid.
    pub fn reason(&self) -> (r: &InvalidOperandReason)
        ensures
            *r == self.reason,
    {
        &self.reason
    }

    /// A slice operand of `len` bytes that is too long.
    pub fn too_long(kind: Operand, len: usize) -> (r: InvalidOperand)
        ensures
            r == (InvalidOperand { reason: InvalidOperandReason::TooLong(len), kind }),
    {
        InvalidOperand { reason: InvalidOperandReason::TooLong(len), kind }
    }

    /// An operand at `addr`, too high in memory.
    pub fn addr_too_high(kind: Operand, addr: usize) -> (r: InvalidOperand)
        ensures
            r == (InvalidOperand { reason: InvalidOperandReason::AddrTooHigh(addr), kind }),
    {
        InvalidOperand { reason: InvalidOperandReason::AddrTooHigh(addr), kind }
    }
}

/// A memory slice read by a transfer: its address and length.
#[derive(Copy, Clone, Debug, PartialEq, Eq, Structural)]
pub struct SourceSlice {
    pub addr: usize,
    pub len: usize,
}

/// A memory slice written by a transfer: its address and length.
#[derive(Copy, Clone, Debug, PartialEq, Eq, Structural)]
pub struct DestSlice {
    pub addr: usize,
    pub len: usize,
}

/// A memory-mapped register read by a transfer.
#[derive(Copy, Clone, Debug, PartialEq, Eq, Structural)]
pub struct SourceReg {
    pub addr: usize,
}

/// A memory-mapped register written by a transfer.
#[derive(Copy, Clone, Debug, PartialEq, Eq, Structural)]
pub struct DestReg {
    pub addr: usize,
}

/// A builder for DMA [`Descriptor`]s; `S` and `D` describe the source and
/// destination once they are set (`()` before).
#[derive(Copy, Clone, Debug)]
pub struct DescriptorBuilder<S, D> {
    pub cfg: Cfg,
    pub param: Param,
    pub link: u32,
    pub source: S,
    pub dest: D,
}

/// The link word meaning "no next descriptor".
pub const END_LINK: u32 = 0xFFFF_F800;

/// The two address bits above the low 32 of an operand address.
pub open spec fn high_bits_of(addr: usize) -> u32 {
    ((addr as int / 0x1_0000_0000int) % 4) as u32
}

/// The low 32 bits of an address.
pub open spec fn low_bits_of(addr: usize) -> u32 {
    ((addr as int) % 0x1_0000_0000int) as u32
}

/// The link word of a next descriptor at `addr`.
pub open spec fn link_of(addr: usize) -> Result<u32, InvalidLink> {
    if addr > 0xffff_ffff {
        Err(InvalidLink::TooLong(addr))
    } else if addr % 4 != 0 {
        Err(InvalidLink::Misaligned(addr))
    } else {
        Ok(addr as u32)
    }
}

/// The link word for an optional next descriptor.
pub open spec fn link_word(link: Option<usize>) -> Result<u32, InvalidLink> {
    match link {
        None => Ok(END_LINK),
        Some(addr) => link_of(addr),
    }
}

/// The outcome of checking an operand address.
pub open spec fn high_bits_result(addr: usize, kind: Operand) -> Result<u32, InvalidOperand> {
    if addr > Descriptor::ADDR_MAX {
        Err(InvalidOperand { reason: InvalidOperandReason::AddrTooHigh(addr), kind })
    } else {
        Ok(high_bits_of(addr))
    }
}

/// A slice operand of `len` bytes at `addr`: checked for its address, then
/// its length.
pub open spec fn slice_result(addr: usize, len: usize, kind: Operand) -> Result<u32, InvalidOperand> {
    match high_bits_result(addr, kind) {
        Err(e) => Err(e),
        Ok(h) => if len > Descriptor::MAX_LEN {
            Err(InvalidOperand { reason: InvalidOperandReason::TooLong(len), kind })
        } else {
            Ok(h)
        },
    }
}

impl Descriptor {
    /// Maximum length of a slice operand, and of the `len` argument of
    /// [`DescriptorBuilder::try_build`]: byte counters are 25 bits wide.
    pub const MAX_LEN: u32 = 0x1ff_ffff;

    /// Highest allowable operand address: addresses are 34 bits wide.
    pub const ADDR_MAX: u64 = 0x3_ffff_ffff;

    /// Highest allowable address of a linked descriptor: 32 bits.
    pub const LINK_ADDR_MAX: usize = 0xffff_ffff;

    /// A builder for a new descriptor.
    pub fn builder() -> (r: DescriptorBuilder<(), ()>)
        ensures
            r.cfg.bits == 0,
            r.param.bits == 0,
            r.link == END_LINK,
    {
        DescriptorBuilder::new()
    }

    /// Converts the address of a next descriptor into a link word.
    ///
    /// The address must fit in 32 bits and be 4-byte aligned.
    pub fn addr_to_link(addr: usize) -> (r: Result<u32, InvalidLink>)
        ensures
            r == link_of(addr),
    {
        if addr > Self::LINK_ADDR_MAX {
            return Err(InvalidLink::TooLong(addr));
        }
        if addr & 3 > 0 {
            assert(addr % 4 != 0) by (bit_vector)
                requires addr & 3 > 0;
            return Err(InvalidLink::Misaligned(addr));
        }
        assert(addr % 4 == 0) by (bit_vector)
            requires !(addr & 3 > 0);
        Ok(addr as u32)
    }

    /// Sets (or, with `None`, clears) the next descriptor of the chain.
    ///
    /// An invalid link address is refused and leaves the descriptor as it was.
    pub fn set_link(&mut self, link: Option<usize>) -> (r: Result<(), InvalidLink>)
        ensures
            match link_word(link) {
                Ok(w) => r is Ok && *final(self) == (Descriptor { link: w, ..*old(self) }),
                Err(e) => r == Err::<(), InvalidLink>(e) && *final(self) == *old(self),
            },
    {
        let w = match link {
            None => END_LINK,
            Some(addr) => match Self::addr_to_link(addr) {
                Ok(w) => w,
                Err(e) => return Err(e),
            },
        };
        self.link = w;
        Ok(())
    }
}

/// Splits an address known to be at most [`Descriptor::ADDR_MAX`] into its
/// high bits.
fn high_address_bits(addr: usize) -> (r: u32)
    requires
        addr <= Descriptor::ADDR_MAX,
    ensures
        r == high_bits_of(addr),
{
    let a = addr as u64;
    let h = (a >> 32u64) & 3;
    assert(h == (a / 0x1_0000_0000u64) % 4) by (bit_vector)
        requires h == (a >> 32u64) & 3;
    h as u32
}

/// The low 32 bits of an address.
fn low_address_bits(addr: usize) -> (r: u32)
    ensures
        r == low_bits_of(addr),
{
    let a = addr as u64;
    let l = (a & 0xffff_ffff) as u32;
    assert(l as u64 == a % 0x1_0000_0000u64) by (bit_vector)
        requires l == (a & 0xffff_ffff) as u32;
    l
}

impl DescriptorBuilder<(), ()> {
    /// A builder with a zeroed configuration and no next descriptor.
    pub fn new() -> (r: Self)
        ensures
            r.cfg.bits == 0,
            r.param.bits == 0,
            r.link == END_LINK,
    {
        DescriptorBuilder { cfg: Cfg::new(), param: Param::new(), link: END_LINK, source: (), dest: () }
    }
}

impl<S: Copy, D: Copy> DescriptorBuilder<S, D> {
    /// Sets the source block size.
    pub fn src_block_size(self, val: BlockSize) -> (r: Self)
        ensures
            r == (DescriptorBuilder { cfg: Cfg { bits: set_field(self.cfg.bits, 6, 2, block_size_bits(val)) }, ..self }),
    {
        DescriptorBuilder { cfg: self.cfg.with_src_block_size(val), ..self }
    }

    /// Sets the source data width.
    pub fn src_data_width(self, val: DataWidth) -> (r: Self)
        ensures
            r == (DescriptorBuilder { cfg: Cfg { bits: set_field(self.cfg.bits, 9, 2, data_width_bits(val)) }, ..self }),
    {
        DescriptorBuilder { cfg: self.cfg.with_src_data_width(val), ..self }
    }

    /// Sets the destination block size.
    pub fn dest_block_size(self, val: BlockSize) -> (r: Self)
        ensures
            r == (DescriptorBuilder { cfg: Cfg { bits: set_field(self.cfg.bits, 22, 2, block_size_bits(val)) }, ..self }),
    {
        DescriptorBuilder { cfg: self.cfg.with_dest_block_size(val), ..self }
    }

    /// Sets the destination data width.
    pub fn dest_data_width(self, val: DataWidth) -> (r: Self)
        ensures
            r == (DescriptorBuilder { cfg: Cfg { bits: set_field(self.cfg.bits, 25, 2, data_width_bits(val)) }, ..self }),
    {
        DescriptorBuilder { cfg: self.cfg.with_dest_data_width(val), ..self }
    }

    /// Sets the `BMODE` select.
    pub fn bmode_sel(self, val: BModeSel) -> (r: Self)
        ensures
            r == (DescriptorBuilder { cfg: Cfg { bits: set_field(self.cfg.bits, 30, 1, bmode_bits(val)) }, ..self }),
    {
        DescriptorBuilder { cfg: self.cfg.with_bmode_sel(val), ..self }
    }

    /// Sets the wait clock cycles.
    pub fn wait_clock_cycles(self, wait_clock_cycles: u8) -> (r: Self)
        ensures
            r == (DescriptorBuilder { param: Param { bits: set_field(self.param.bits, 0, 8, wait_clock_cycles as u32) }, ..self }),
    {
        DescriptorBuilder { param: self.param.with_wait_clock_cycles(wait_clock_cycles), ..self }
    }

    /// Sets (or, with `None`, clears) the next descriptor.
    pub fn link(self, link: Option<usize>) -> (r: Result<Self, InvalidLink>)
        ensures
            match link_word(link) {
                Ok(w) => r == Ok::<Self, InvalidLink>(DescriptorBuilder { link: w, ..self }),
                Err(e) => r == Err::<Self, InvalidLink>(e),
            },
    {
        let w = match link {
            None => END_LINK,
            Some(addr) => match Descriptor::addr_to_link(addr) {
                Ok(w) => w,
                Err(e) => return Err(e),
            },
        };
        Ok(DescriptorBuilder { link: w, ..self })
    }

    /// Checks an operand address and returns its two high bits.
    fn high_bits(addr: usize, kind: Operand) -> (r: Result<u32, InvalidOperand>)
        ensures
            r == high_bits_result(addr, kind),
    {
        if addr as u64 > Descriptor::ADDR_MAX {
            return Err(InvalidOperand::addr_too_high(kind, addr));
        }
        Ok(high_address_bits(addr))
    }

    /// Sets the memory slice at `addr`, `len` bytes long, as the source.
    ///
    /// Being memory, the source uses linear addressing and the DRAM DRQ type.
    /// Fails if the address is above [`Descriptor::ADDR_MAX`] or the slice
    /// is longer than [`Descriptor::MAX_LEN`].
    pub fn source_slice(self, addr: usize, len: usize) -> (r: Result<DescriptorBuilder<SourceSlice, D>, InvalidOperand>)
        ensures
            match slice_result(addr, len, Operand::Source) {
                Err(e) => r == Err::<DescriptorBuilder<SourceSlice, D>, InvalidOperand>(e),
                Ok(h) => r is Ok && r->Ok_0 == (DescriptorBuilder {
                    cfg: Cfg { bits: set_field(set_field(self.cfg.bits, 8, 1, address_mode_bits(AddressMode::LinearMode)), 0, 6, src_drq_bits(SrcDrqType::Dram)) },
                    param: Param { bits: set_field(self.param.bits, 16, 2, h) },
                    link: self.link,
                    source: SourceSlice { addr, len },
                    dest: self.dest,
                }),
            },
    {
        let high = match Self::high_bits(addr, Operand::Source) {
            Ok(h) => h,
            Err(e) => return Err(e),
        };
        if len > Descriptor::MAX_LEN as usize {
            return Err(InvalidOperand::too_long(Operand::Source, len));
        }
        Ok(DescriptorBuilder {
            cfg: self.cfg.with_src_addr_mode(AddressMode::LinearMode).with_src_drq_type(SrcDrqType::Dram),
            param: self.param.with_src_high(high),
            link: self.link,
            source: SourceSlice { addr, len },
            dest: self.dest,
        })
    }

    /// Sets the memory slice at `addr`, `len` bytes long, as the destination.
    ///
    /// Being memory, the destination uses linear addressing and the DRAM DRQ
    /// type. Fails if the address is above [`Descriptor::ADDR_MAX`] or the
    /// slice is longer than [`Descriptor::MAX_LEN`].
    pub fn dest_slice(self, addr: usize, len: usize) -> (r: Result<DescriptorBuilder<S, DestSlice>, InvalidOperand>)
        ensures
            match slice_result(addr, len, Operand::Destination) {
                Err(e) => r == Err::<DescriptorBuilder<S, DestSlice>, InvalidOperand>(e),
                Ok(h) => r is Ok && r->Ok_0 == (DescriptorBuilder {
                    cfg: Cfg { bits: set_field(set_field(self.cfg.bits, 24, 1, address_mode_bits(AddressMode::LinearMode)), 16, 6, dest_drq_bits(DestDrqType::Dram)) },
                    param: Param { bits: set_field(self.param.bits, 18, 2, h) },
                    link: self.link,
                    source: self.source,
                    dest: DestSlice { addr, len },
                }),
            },
    {
        let high = match Self::high_bits(addr, Operand::Destination) {
            Ok(h) => h,
            Err(e) => return Err(e),
        };
        if len > Descriptor::MAX_LEN as usize {
            return Err(InvalidOperand::too_long(Operand::Destination, len));
        }
        Ok(DescriptorBuilder {
            cfg: self.cfg.with_dest_addr_mode(AddressMode::LinearMode).with_dest_drq_type(DestDrqType::Dram),
            param: self.param.with_dest_high(high),
            link: self.link,
            source: self.source,
            dest: DestSlice { addr, len },
        })
    }

    /// Sets the memory-mapped register at `addr` as the source, read with
    /// the DRQ signal `drq_type` in I/O addressing mode.
    ///
    /// Fails if the address is above [`Descriptor::ADDR_MAX`].
    pub fn source_reg(self, addr: usize, drq_type: SrcDrqType) -> (r: Result<DescriptorBuilder<SourceReg, D>, InvalidOperand>)
        ensures
            match high_bits_result(addr, Operand::Source) {
                Err(e) => r == Err::<DescriptorBuilder<SourceReg, D>, InvalidOperand>(e),
                Ok(h) => r is Ok && r->Ok_0 == (DescriptorBuilder {
                    cfg: Cfg { bits: set_field(set_field(self.cfg.bits, 8, 1, address_mode_bits(AddressMode::IoMode)), 0, 6, src_drq_bits(drq_type)) },
                    param: Param { bits: set_field(self.param.bits, 16, 2, h) },
                    link: self.link,
                    source: SourceReg { addr },
                    dest: self.dest,
                }),
            },
    {
        let high = match Self::high_bits(addr, Operand::Source) {
            Ok(h) => h,
            Err(e) => return Err(e),
        };
        Ok(DescriptorBuilder {
            cfg: self.cfg.with_src_addr_mode(AddressMode::IoMode).with_src_drq_type(drq_type),
            param: self.param.with_src_high(high),
            link: self.link,
            source: SourceReg { addr },
            dest: self.dest,
        })
    }

    /// Sets the memory-mapped register at `addr` as the destination, written
    /// with the DRQ signal `drq_type` in I/O addressing mode.
    ///
    /// Fails if the address is above [`Descriptor::ADDR_MAX`].
    pub fn dest_reg(self, addr: usize, drq_type: DestDrqType) -> (r: Result<DescriptorBuilder<S, DestReg>, InvalidOperand>)
        ensures
            match high_bits_result(addr, Operand::Destination) {
                Err(e) => r == Err::<DescriptorBuilder<S, DestReg>, InvalidOperand>(e),
                Ok(h) => r is Ok && r->Ok_0 == (DescriptorBuilder {
                    cfg: Cfg { bits: set_field(set_field(self.cfg.bits, 24, 1, address_mode_bits(AddressMode::IoMode)), 16, 6, dest_drq_bits(drq_type)) },
                    param: Param { bits: set_field(self.param.bits, 18, 2, h) },
                    link: self.link,
                    source: self.source,
                    dest: DestReg { addr },
                }),
            },
    {
        let high = match Self::high_bits(addr, Operand::Destination) {
            Ok(h) => h,
            Err(e) => return Err(e),
        };
        Ok(DescriptorBuilder {
            cfg: self.cfg.with_dest_addr_mode(AddressMode::IoMode).with_dest_drq_type(drq_type),
            param: self.param.with_dest_high(high),
            link: self.link,
            source: self.source,
            dest: DestReg { addr },
        })
    }

    /// Assembles the descriptor from already validated addresses and count.
    fn build_inner(self, source_addr: usize, dest_addr: usize, byte_counter: u32) -> (r: Descriptor)
        requires
            source_addr <= Descriptor::ADDR_MAX,
            dest_addr <= Descriptor::ADDR_MAX,
            byte_counter <= Descriptor::MAX_LEN,
        ensures
            r == built(self.cfg, self.param, self.link, source_addr, dest_addr, byte_counter),
    {
        Descriptor {
            configuration: self.cfg,
            source_address: low_address_bits(source_addr),
            destination_address: low_address_bits(dest_addr),
            byte_counter,
            parameter: self.param,
            link: self.link,
        }
    }
}

/// The descriptor assembled from a builder's fields.
pub open spec fn built(cfg: Cfg, param: Param, link: u32, source_addr: usize, dest_addr: usize, byte_counter: u32) -> Descriptor {
    Descriptor {
        configuration: cfg,
        source_address: low_bits_of(source_addr),
        destination_address: low_bits_of(dest_addr),
        byte_counter,
        parameter: param,
        link,
    }
}

impl DescriptorBuilder<SourceSlice, DestSlice> {
    /// Builds a memory-to-memory descriptor copying as many bytes as the
    /// shorter of the two slices holds.
    pub fn build(self) -> (r: Descriptor)
        requires
            self.source.addr <= Descriptor::ADDR_MAX,
            self.dest.addr <= Descriptor::ADDR_MAX,
            self.source.len <= Descriptor::MAX_LEN,
            self.dest.len <= Descriptor::MAX_LEN,
        ensures
            r == built(self.cfg, self.param, self.link, self.source.addr, self.dest.addr,
                (if self.source.len < self.dest.len { self.source.len } else { self.dest.len }) as u32),
    {
        let len = if self.source.len < self.dest.len { self.source.len } else { self.dest.len };
        self.build_inner(self.source.addr, self.dest.addr, len as u32)
    }
}

impl DescriptorBuilder<SourceReg, DestSlice> {
    /// Builds a register-to-memory descriptor filling the destination slice.
    pub fn build(self) -> (r: Descriptor)
        requires
            self.source.addr <= Descriptor::ADDR_MAX,
            self.dest.addr <= Descriptor::ADDR_MAX,
            self.dest.len <= Descriptor::MAX_LEN,
        ensures
            r == built(self.cfg, self.param, self.link, self.source.addr, self.dest.addr, self.dest.len as u32),
    {
        self.build_inner(self.source.addr, self.dest.addr, self.dest.len as u32)
    }
}

impl DescriptorBuilder<SourceSlice, DestReg> {
    /// Builds a memory-to-register descriptor sending the source slice.
    pub fn build(self) -> (r: Descriptor)
        requires
            self.source.addr <= Descriptor::ADDR_MAX,
            self.dest.addr <= Descriptor::ADDR_MAX,
            self.source.len <= Descriptor::MAX_LEN,
        ensures
            r == built(self.cfg, self.param, self.link, self.source.addr, self.dest.addr, self.source.len as u32),
    {
        self.build_inner(self.source.addr, self.dest.addr, self.source.len as u32)
    }
}

impl DescriptorBuilder<SourceReg, DestReg> {
    /// Builds a register-to-register descriptor moving `len` bytes.
    ///
    /// Fails if `len` exceeds [`Descriptor::MAX_LEN`].
    pub fn try_build(self, len: u32) -> (r: Result<Descriptor, InvalidDescriptor>)
        requires
            self.source.addr <= Descriptor::ADDR_MAX,
            self.dest.addr <= Descriptor::ADDR_MAX,
        ensures
            len > Descriptor::MAX_LEN ==> r == Err::<Descriptor, InvalidDescriptor>(InvalidDescriptor::ByteCounterTooLong(len as usize)),
            len <= Descriptor::MAX_LEN ==> r == Ok::<Descriptor, InvalidDescriptor>(built(self.cfg, self.param, self.link, self.source.addr, self.dest.addr, len)),
    {
        if len > Descriptor::MAX_LEN {
            return Err(InvalidDescriptor::ByteCounterTooLong(len as usize));
        }
        Ok(self.build_inner(self.source.addr, self.dest.addr, len))
    }
}

} // verus!
