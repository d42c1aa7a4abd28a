//! Register values of the direct memory access (DMA) controller.
use vstd::prelude::*;

use crate::bits;
use super::config::{Periph4Dma01, Periph4Dma2, PeripheralId};

verus! {

/// AHB master endian mode.
#[derive(Clone, Copy, Debug, PartialEq, Eq, Hash, Structural)]
pub enum EndianMode {
    LittleEndian,
    BigEndian,
}

impl EndianMode {
    /// Number that stands for this value in a register field.
    pub open spec fn value(self) -> u32 {
        match self {
            EndianMode::LittleEndian => 0,
            EndianMode::BigEndian => 1,
        }
    }

    /// Whether `v` is the number of some value.
    pub open spec fn is_value(v: u32) -> bool {
        v <= 1
    }

    /// Number that stands for this value in a register field.
    pub fn to_u32(self) -> (r: u32)
        ensures
            r == self.value(),
            r <= 1,
    {
        match self {
            EndianMode::LittleEndian => 0,
            EndianMode::BigEndian => 1,
        }
    }
}

/// DMA transfer width.
#[derive(Clone, Copy, Debug, PartialEq, Eq, Hash, Structural)]
pub enum TransferWidth {
    /// Transfer 1 byte (8 bits) at a time.
    Byte,
    /// Transfer 2 byte (16 bits) at a time.
    HalfWord,
    /// Transfer 4 byte (32 bits) at a time.
    Word,
    /// Transfer 8 byte (64 bits) at a time.
    DoubleWord,
}

impl TransferWidth {
    /// Number that stands for this value in a register field.
    pub open spec fn value(self) -> u32 {
        match self {
            TransferWidth::Byte => 0,
            TransferWidth::HalfWord => 1,
            TransferWidth::Word => 2,
            TransferWidth::DoubleWord => 3,
        }
    }

    /// Whether `v` is the number of some value.
    pub open spec fn is_value(v: u32) -> bool {
        v <= 3
    }

    /// Number that stands for this value in a register field.
    pub fn to_u32(self) -> (r: u32)
        ensures
            r == self.value(),
            r <= 3,
    {
        match self {
            TransferWidth::Byte => 0,
            TransferWidth::HalfWord => 1,
            TransferWidth::Word => 2,
            TransferWidth::DoubleWord => 3,
        }
    }
}

/// DMA burst size.
#[derive(Clone, Copy, Debug, PartialEq, Eq, Hash, Structural)]
pub enum BurstSize {
    /// Transfer 1 data unit at a time.
    INCR1,
    /// Transfer 4 data units at a time.
    INCR4,
    /// Transfer 8 data units at a time.
    INCR8,
    /// Transfer 16 data units at a time.
    INCR16,
}

impl BurstSize {
    /// Number that stands for this value in a register field.
    pub open spec fn value(self) -> u32 {
        match self {
            BurstSize::INCR1 => 0,
            BurstSize::INCR4 => 1,
            BurstSize::INCR8 => 2,
            BurstSize::INCR16 => 3,
        }
    }

    /// Whether `v` is the number of some value.
    pub open spec fn is_value(v: u32) -> bool {
        v <= 3
    }

    /// Number that stands for this value in a register field.
    pub fn to_u32(self) -> (r: u32)
        ensures
            r == self.value(),
            r <= 3,
    {
        match self {
            BurstSize::INCR1 => 0,
            BurstSize::INCR4 => 1,
            BurstSize::INCR8 => 2,
            BurstSize::INCR16 => 3,
        }
    }
}

/// DMA transfer mode.
#[derive(Clone, Copy, Debug, PartialEq, Eq, Hash, Structural)]
pub enum DmaMode {
    /// Memory to memory (DMA).
    /// Notice: When the DMA mode is set to memory to memory, the source and destination address must be incremented.
    Mem2Mem,
    /// Peripheral to memory (DMA).
    Mem2Periph,
    /// Memory to peripheral (DMA).
    Periph2Mem,
    /// Source peripheral to destination peripheral (DMA).
    Periph2Periph,
    /// Source peripheral to destination peripheral (destination peripheral).
    Periph2PeriphCtrlByDst,
    /// Memory to peripheral (peripheral).
    Mem2PeriphCtrlByPeriph,
    /// Peripheral to memory (peripheral).
    Periph2MemCtrlByPeriph,
    /// Source peripheral to destination peripheral (source peripheral).
    Periph2PeriphCtrlBySrc,
}

impl DmaMode {
    /// Number that stands for this value in a register field.
    pub open spec fn value(self) -> u32 {
        match self {
            DmaMode::Mem2Mem => 0,
            DmaMode::Mem2Periph => 1,
            DmaMode::Periph2Mem => 2,
            DmaMode::Periph2Periph => 3,
            DmaMode::Periph2PeriphCtrlByDst => 4,
            DmaMode::Mem2PeriphCtrlByPeriph => 5,
            DmaMode::Periph2MemCtrlByPeriph => 6,
            DmaMode::Periph2PeriphCtrlBySrc => 7,
        }
    }

    /// Whether `v` is the number of some value.
    pub open spec fn is_value(v: u32) -> bool {
        v <= 7
    }

    /// Number that stands for this value in a register field.
    pub fn to_u32(self) -> (r: u32)
        ensures
            r == self.value(),
            r <= 7,
    {
        match self {
            DmaMode::Mem2Mem => 0,
            DmaMode::Mem2Periph => 1,
            DmaMode::Periph2Mem => 2,
            DmaMode::Periph2Periph => 3,
            DmaMode::Periph2PeriphCtrlByDst => 4,
            DmaMode::Mem2PeriphCtrlByPeriph => 5,
            DmaMode::Periph2MemCtrlByPeriph => 6,
            DmaMode::Periph2PeriphCtrlBySrc => 7,
        }
    }
}

/// Global interrupt state after masking.
#[derive(Clone, Copy, Debug, PartialEq, Eq, Hash, Structural)]
pub struct GlobalState(pub u8);

/// Transfer complete interrupt state.
#[derive(Clone, Copy, Debug, PartialEq, Eq, Hash, Structural)]
pub struct TransferCompleteState(pub u8);

/// Clear transfer complete interrupt.
#[derive(Clone, Copy, Debug, PartialEq, Eq, Hash, Default, Structural)]
pub struct TransferCompleteClear(pub u8);

/// Error interrupt state.
#[derive(Clone, Copy, Debug, PartialEq, Eq, Hash, Structural)]
pub struct ErrorState(pub u8);

/// Clear error interrupt.
#[derive(Clone, Copy, Debug, PartialEq, Eq, Hash, Default, Structural)]
pub struct ErrorClear(pub u8);

/// Transfer complete interrupt state before masking.
#[derive(Clone, Copy, Debug, PartialEq, Eq, Hash, Structural)]
pub struct RawTransferComplete(pub u8);

/// Error interrupt state before masking.
#[derive(Clone, Copy, Debug, PartialEq, Eq, Hash, Structural)]
pub struct RawError(pub u8);

/// Channel enable states.
#[derive(Clone, Copy, Debug, PartialEq, Eq, Hash, Structural)]
pub struct EnabledChannels(pub u8);

/// Peripheral configuration register.
#[derive(Clone, Copy, Debug, PartialEq, Eq, Hash, Structural)]
pub struct GlobalConfig(pub u32);

impl GlobalConfig {
    /// Set AHB master endian mode.
    pub fn set_ahb_master_endian_mode(self, mode: EndianMode) -> (r: Self)
        ensures
            r.0 == bits::with_field(self.0, 1, 1, mode.value()),
            bits::field(r.0, 1, 1) == mode.value(),
            bits::same_outside(self.0, r.0, 1, 1),
    {
        proof {
            bits::lemma_low_masks();
        }
        Self(bits::set_field(self.0, 1, 1, mode.to_u32()))
    }

    /// Get AHB master endian mode.
    pub fn ahb_master_endian_mode(self) -> (r: EndianMode)
        ensures
            EndianMode::is_value(bits::field(self.0, 1, 1)) ==> r.value() == bits::field(self.0, 1, 1),
            !EndianMode::is_value(bits::field(self.0, 1, 1)) ==> r == EndianMode::BigEndian,
    {
        proof {
            bits::lemma_low_masks();
        }
        match bits::get_field(self.0, 1, 1) {
            0 => EndianMode::LittleEndian,
            _ => EndianMode::BigEndian,
        }
    }

    /// Enable DMA.
    pub fn enable_dma(self) -> (r: Self)
        ensures
            r.0 == bits::with_field(self.0, 0, 1, 1),
            bits::field(r.0, 0, 1) == 1,
            bits::same_outside(self.0, r.0, 0, 1),
    {
        Self(bits::set_bit(self.0, 0))
    }

    /// Disable DMA.
    pub fn disable_dma(self) -> (r: Self)
        ensures
            r.0 == bits::with_field(self.0, 0, 1, 0),
            bits::field(r.0, 0, 1) == 0,
            bits::same_outside(self.0, r.0, 0, 1),
    {
        Self(bits::clear_bit(self.0, 0))
    }

    /// Check if DMA is enabled.
    pub fn is_dma_enabled(self) -> (r: bool)
        ensures
            r == (bits::field(self.0, 0, 1) == 1),
    {
        bits::test_bit(self.0, 0)
    }
}

/// Control register in linked list item.
#[derive(Clone, Copy, Debug, PartialEq, Eq, Hash, Structural)]
pub struct LliControl(pub u32);

impl LliControl {
    /// Enable completion interrupt.
    pub fn enable_cplt_int(self) -> (r: Self)
        ensures
            r.0 == bits::with_field(self.0, 31, 1, 1),
            bits::field(r.0, 31, 1) == 1,
            bits::same_outside(self.0, r.0, 31, 1),
    {
        Self(bits::set_bit(self.0, 31))
    }

    /// Disable completion interrupt.
    pub fn disable_cplt_int(self) -> (r: Self)
        ensures
            r.0 == bits::with_field(self.0, 31, 1, 0),
            bits::field(r.0, 31, 1) == 0,
            bits::same_outside(self.0, r.0, 31, 1),
    {
        Self(bits::clear_bit(self.0, 31))
    }

    /// Check if completion interrupt is enabled.
    pub fn is_cplt_int_enabled(self) -> (r: bool)
        ensures
            r == (bits::field(self.0, 31, 1) == 1),
    {
        bits::test_bit(self.0, 31)
    }

    /// Enable destination address increment.
    pub fn enable_dst_addr_inc(self) -> (r: Self)
        ensures
            r.0 == bits::with_field(self.0, 27, 1, 1),
            bits::field(r.0, 27, 1) == 1,
            bits::same_outside(self.0, r.0, 27, 1),
    {
        Self(bits::set_bit(self.0, 27))
    }

    /// Disable destination address increment.
    pub fn disable_dst_addr_inc(self) -> (r: Self)
        ensures
            r.0 == bits::with_field(self.0, 27, 1, 0),
            bits::field(r.0, 27, 1) == 0,
            bits::same_outside(self.0, r.0, 27, 1),
    {
        Self(bits::clear_bit(self.0, 27))
    }

    /// Check if destination address increment is enabled.
    pub fn is_dst_addr_inc_enabled(self) -> (r: bool)
        ensures
            r == (bits::field(self.0, 27, 1) == 1),
    {
        bits::test_bit(self.0, 27)
    }

    /// Enable source address increment.
    pub fn enable_src_addr_inc(self) -> (r: Self)
        ensures
            r.0 == bits::with_field(self.0, 26, 1, 1),
            bits::field(r.0, 26, 1) == 1,
            bits::same_outside(self.0, r.0, 26, 1),
    {
        Self(bits::set_bit(self.0, 26))
    }

    /// Disable source address increment.
    pub fn disable_src_addr_inc(self) -> (r: Self)
        ensures
            r.0 == bits::with_field(self.0, 26, 1, 0),
            bits::field(r.0, 26, 1) == 0,
            bits::same_outside(self.0, r.0, 26, 1),
    {
        Self(bits::clear_bit(self.0, 26))
    }

    /// Check if source address increment is enabled.
    pub fn is_src_addr_inc_enabled(self) -> (r: bool)
        ensures
            r == (bits::field(self.0, 26, 1) == 1),
    {
        bits::test_bit(self.0, 26)
    }

    /// Set fixed count.
    pub fn set_fix_cnt(self, cnt: u8) -> (r: Self)
        ensures
            r.0 == bits::or_field(self.0, 23, 3, cnt as u32),
            cnt <= 0x7 ==> bits::field(r.0, 23, 3) == cnt as u32 && bits::same_outside(self.0, r.0, 23, 3),
    {
        proof {
            bits::lemma_low_masks();
        }
        Self(bits::or_into_field(self.0, 23, 3, cnt as u32))
    }

    /// Get fixed count.
    pub fn fix_cnt(self) -> (r: u8)
        ensures
            r as u32 == bits::field(self.0, 23, 3),
    {
        proof {
            bits::lemma_low_masks();
        }
        bits::get_field(self.0, 23, 3) as u8
    }

    /// Set destination transfer width.
    pub fn set_dst_transfer_width(self, width: TransferWidth) -> (r: Self)
        ensures
            r.0 == bits::with_field(self.0, 21, 2, width.value()),
            bits::field(r.0, 21, 2) == width.value(),
            bits::same_outside(self.0, r.0, 21, 2),
    {
        proof {
            bits::lemma_low_masks();
        }
        Self(bits::set_field(self.0, 21, 2, width.to_u32()))
    }

    /// Get destination transfer width.
    pub fn dst_transfer_width(self) -> (r: TransferWidth)
        ensures
            TransferWidth::is_value(bits::field(self.0, 21, 2)) ==> r.value() == bits::field(self.0, 21, 2),
            !TransferWidth::is_value(bits::field(self.0, 21, 2)) ==> r == TransferWidth::DoubleWord,
    {
        proof {
            bits::lemma_low_masks();
        }
        match bits::get_field(self.0, 21, 2) {
            0 => TransferWidth::Byte,
            1 => TransferWidth::HalfWord,
            2 => TransferWidth::Word,
            _ => TransferWidth::DoubleWord,
        }
    }

    /// Set source transfer width.
    pub fn set_src_transfer_width(self, width: TransferWidth) -> (r: Self)
        ensures
            r.0 == bits::with_field(self.0, 18, 2, width.value()),
            bits::field(r.0, 18, 2) == width.value(),
            bits::same_outside(self.0, r.0, 18, 2),
    {
        proof {
            bits::lemma_low_masks();
        }
        Self(bits::set_field(self.0, 18, 2, width.to_u32()))
    }

    /// Get source transfer width.
    pub fn src_transfer_width(self) -> (r: TransferWidth)
        ensures
            TransferWidth::is_value(bits::field(self.0, 18, 2)) ==> r.value() == bits::field(self.0, 18, 2),
            !TransferWidth::is_value(bits::field(self.0, 18, 2)) ==> r == TransferWidth::DoubleWord,
    {
        proof {
            bits::lemma_low_masks();
        }
        match bits::get_field(self.0, 18, 2) {
            0 => TransferWidth::Byte,
            1 => TransferWidth::HalfWord,
            2 => TransferWidth::Word,
            _ => TransferWidth::DoubleWord,
        }
    }

    /// Enable destination address mode (issue remain destination traffic).
    pub fn enable_dst_add_mode(self) -> (r: Self)
        ensures
            r.0 == bits::with_field(self.0, 17, 1, 1),
            bits::field(r.0, 17, 1) == 1,
            bits::same_outside(self.0, r.0, 17, 1),
    {
        Self(bits::set_bit(self.0, 17))
    }

    /// Disable destination address mode (issue remain destination traffic).
    pub fn disable_dst_add_mode(self) -> (r: Self)
        ensures
            r.0 == bits::with_field(self.0, 17, 1, 0),
            bits::field(r.0, 17, 1) == 0,
            bits::same_outside(self.0, r.0, 17, 1),
    {
        Self(bits::clear_bit(self.0, 17))
    }

    /// Check if destination add mode (issue remain destination traffic) is enabled.
    pub fn is_dst_add_mode_enabled(self) -> (r: bool)
        ensures
            r == (bits::field(self.0, 17, 1) == 1),
    {
        bits::test_bit(self.0, 17)
    }

    /// Set destination burst size.
    pub fn set_dst_bst_size(self, size: BurstSize) -> (r: Self)
        ensures
            r.0 == bits::with_field(self.0, 15, 2, size.value()),
            bits::field(r.0, 15, 2) == size.value(),
            bits::same_outside(self.0, r.0, 15, 2),
    {
        proof {
            bits::lemma_low_masks();
        }
        Self(bits::set_field(self.0, 15, 2, size.to_u32()))
    }

    /// Get destination burst size.
    pub fn dst_bst_size(self) -> (r: BurstSize)
        ensures
            BurstSize::is_value(bits::field(self.0, 15, 2)) ==> r.value() == bits::field(self.0, 15, 2),
            !BurstSize::is_value(bits::field(self.0, 15, 2)) ==> r == BurstSize::INCR16,
    {
        proof {
            bits::lemma_low_masks();
        }
        match bits::get_field(self.0, 15, 2) {
            0 => BurstSize::INCR1,
            1 => BurstSize::INCR4,
            2 => BurstSize::INCR8,
            _ => BurstSize::INCR16,
        }
    }

    /// Enable destination min mode (Not issue all destination traffic).
    pub fn enable_dst_min_mode(self) -> (r: Self)
        ensures
            r.0 == bits::with_field(self.0, 14, 1, 1),
            bits::field(r.0, 14, 1) == 1,
            bits::same_outside(self.0, r.0, 14, 1),
    {
        Self(bits::set_bit(self.0, 14))
    }

    /// Disable destination min mode (Not issue all destination traffic).
    pub fn disable_dst_min_mode(self) -> (r: Self)
        ensures
            r.0 == bits::with_field(self.0, 14, 1, 0),
            bits::field(r.0, 14, 1) == 0,
            bits::same_outside(self.0, r.0, 14, 1),
    {
        Self(bits::clear_bit(self.0, 14))
    }

    /// Check if destination min mode (Not issue all destination traffic) is enabled.
    pub fn is_dst_min_mode_enabled(self) -> (r: bool)
        ensures
            r == (bits::field(self.0, 14, 1) == 1),
    {
        bits::test_bit(self.0, 14)
    }

    /// Set source burst size.
    pub fn set_src_bst_size(self, size: BurstSize) -> (r: Self)
        ensures
            r.0 == bits::with_field(self.0, 12, 2, size.value()),
            bits::field(r.0, 12, 2) == size.value(),
            bits::same_outside(self.0, r.0, 12, 2),
    {
        proof {
            bits::lemma_low_masks();
        }
        Self(bits::set_field(self.0, 12, 2, size.to_u32()))
    }

    /// Get source burst size.
    pub fn src_bst_size(self) -> (r: BurstSize)
        ensures
            BurstSize::is_value(bits::field(self.0, 12, 2)) ==> r.value() == bits::field(self.0, 12, 2),
            !BurstSize::is_value(bits::field(self.0, 12, 2)) ==> r == BurstSize::INCR16,
    {
        proof {
            bits::lemma_low_masks();
        }
        match bits::get_field(self.0, 12, 2) {
            0 => BurstSize::INCR1,
            1 => BurstSize::INCR4,
            2 => BurstSize::INCR8,
            _ => BurstSize::INCR16,
        }
    }

    /// Set transfer size.
    pub fn set_transfer_size(self, size: u16) -> (r: Self)
        ensures
            r.0 == bits::or_field(self.0, 0, 12, size as u32),
            size <= 0xfff ==> bits::field(r.0, 0, 12) == size as u32 && bits::same_outside(self.0, r.0, 0, 12),
    {
        proof {
            bits::lemma_low_masks();
        }
        Self(bits::or_into_field(self.0, 0, 12, size as u32))
    }

    /// Get transfer size.
    pub fn transfer_size(self) -> (r: u16)
        ensures
            r as u32 == bits::field(self.0, 0, 12),
    {
        proof {
            bits::lemma_low_masks();
        }
        bits::get_field(self.0, 0, 12) as u16
    }
}

/// Channel configuration register.
#[derive(Clone, Copy, Debug, PartialEq, Eq, Hash, Structural)]
pub struct ChannelConfig(pub u32);

impl ChannelConfig {
    /// Get link list item count.
    pub fn lli_cnt(self) -> (r: u16)
        ensures
            r as u32 == bits::field(self.0, 20, 10),
    {
        proof {
            bits::lemma_low_masks();
        }
        bits::get_field(self.0, 20, 10) as u16
    }

    /// Set link list item count.
    pub fn set_lli_cnt(self, cnt: u16) -> (r: Self)
        ensures
            r.0 == bits::or_field(self.0, 20, 10, cnt as u32),
            cnt <= 0x3ff ==> bits::field(r.0, 20, 10) == cnt as u32 && bits::same_outside(self.0, r.0, 20, 10),
    {
        proof {
            bits::lemma_low_masks();
        }
        Self(bits::or_into_field(self.0, 20, 10, cnt as u32))
    }

    /// Stop DMA.
    pub fn stop_dma(self) -> (r: Self)
        ensures
            r.0 == bits::with_field(self.0, 18, 1, 1),
            bits::field(r.0, 18, 1) == 1,
            bits::same_outside(self.0, r.0, 18, 1),
    {
        Self(bits::set_bit(self.0, 18))
    }

    /// Resume DMA.
    pub fn resume_dma(self) -> (r: Self)
        ensures
            r.0 == bits::with_field(self.0, 18, 1, 0),
            bits::field(r.0, 18, 1) == 0,
            bits::same_outside(self.0, r.0, 18, 1),
    {
        Self(bits::clear_bit(self.0, 18))
    }

    /// Check if DMA is stopped.
    pub fn is_dma_stopped(self) -> (r: bool)
        ensures
            r == (bits::field(self.0, 18, 1) == 1),
    {
        bits::test_bit(self.0, 18)
    }

    /// Check if FIFO is empty.
    pub fn is_fifo_empty(self) -> (r: bool)
        ensures
            r == (bits::field(self.0, 17, 1) == 0),
    {
        !bits::test_bit(self.0, 17)
    }

    /// Lock DMA.
    pub fn lock_dma(self) -> (r: Self)
        ensures
            r.0 == bits::with_field(self.0, 16, 1, 1),
            bits::field(r.0, 16, 1) == 1,
            bits::same_outside(self.0, r.0, 16, 1),
    {
        Self(bits::set_bit(self.0, 16))
    }

    /// Unlock DMA.
    pub fn unlock_dma(self) -> (r: Self)
        ensures
            r.0 == bits::with_field(self.0, 16, 1, 0),
            bits::field(r.0, 16, 1) == 0,
            bits::same_outside(self.0, r.0, 16, 1),
    {
        Self(bits::clear_bit(self.0, 16))
    }

    /// Check if DMA is locked.
    pub fn is_dma_locked(self) -> (r: bool)
        ensures
            r == (bits::field(self.0, 16, 1) == 1),
    {
        bits::test_bit(self.0, 16)
    }

    /// Enable completion interrupt.
    pub fn enable_cplt_int(self) -> (r: Self)
        ensures
            r.0 == bits::with_field(self.0, 15, 1, 1),
            bits::field(r.0, 15, 1) == 1,
            bits::same_outside(self.0, r.0, 15, 1),
    {
        Self(bits::set_bit(self.0, 15))
    }

    /// Disable completion interrupt.
    pub fn disable_cplt_int(self) -> (r: Self)
        ensures
            r.0 == bits::with_field(self.0, 15, 1, 0),
            bits::field(r.0, 15, 1) == 0,
            bits::same_outside(self.0, r.0, 15, 1),
    {
        Self(bits::clear_bit(self.0, 15))
    }

    /// Check if completion interrupt is enabled.
    pub fn is_cplt_int_enabled(self) -> (r: bool)
        ensures
            r == (bits::field(self.0, 15, 1) == 1),
    {
        bits::test_bit(self.0, 15)
    }

    /// Enable error interrupt.
    pub fn enable_err_int(self) -> (r: Self)
        ensures
            r.0 == bits::with_field(self.0, 14, 1, 1),
            bits::field(r.0, 14, 1) == 1,
            bits::same_outside(self.0, r.0, 14, 1),
    {
        Self(bits::set_bit(self.0, 14))
    }

    /// Disable error interrupt.
    pub fn disable_err_int(self) -> (r: Self)
        ensures
            r.0 == bits::with_field(self.0, 14, 1, 0),
            bits::field(r.0, 14, 1) == 0,
            bits::same_outside(self.0, r.0, 14, 1),
    {
        Self(bits::clear_bit(self.0, 14))
    }

    /// Check if error interrupt is enabled.
    pub fn is_err_int_enabled(self) -> (r: bool)
        ensures
            r == (bits::field(self.0, 14, 1) == 1),
    {
        bits::test_bit(self.0, 14)
    }

    /// Set DMA mode.
    pub fn set_dma_mode(self, mode: DmaMode) -> (r: Self)
        ensures
            r.0 == bits::with_field(self.0, 11, 3, mode.value()),
            bits::field(r.0, 11, 3) == mode.value(),
            bits::same_outside(self.0, r.0, 11, 3),
    {
        proof {
            bits::lemma_low_masks();
        }
        Self(bits::set_field(self.0, 11, 3, mode.to_u32()))
    }

    /// Get DMA mode.
    pub fn dma_mode(self) -> (r: DmaMode)
        ensures
            DmaMode::is_value(bits::field(self.0, 11, 3)) ==> r.value() == bits::field(self.0, 11, 3),
            !DmaMode::is_value(bits::field(self.0, 11, 3)) ==> r == DmaMode::Periph2PeriphCtrlBySrc,
    {
        proof {
            bits::lemma_low_masks();
        }
        match bits::get_field(self.0, 11, 3) {
            0 => DmaMode::Mem2Mem,
            1 => DmaMode::Mem2Periph,
            2 => DmaMode::Periph2Mem,
            3 => DmaMode::Periph2Periph,
            4 => DmaMode::Periph2PeriphCtrlByDst,
            5 => DmaMode::Mem2PeriphCtrlByPeriph,
            6 => DmaMode::Periph2MemCtrlByPeriph,
            _ => DmaMode::Periph2PeriphCtrlBySrc,
        }
    }

    /// Set destination peripheral for DMA 0/1.
    pub fn set_dst_periph4dma01(self, periph: Periph4Dma01) -> (r: Self)
        ensures
            r.0 == bits::with_field(self.0, 6, 5, periph.value()),
            bits::field(r.0, 6, 5) == periph.value(),
            bits::same_outside(self.0, r.0, 6, 5),
    {
        proof {
            bits::lemma_low_masks();
        }
        Self(bits::set_field(self.0, 6, 5, periph.to_u32()))
    }

    /// Set destination peripheral for DMA2.
    pub fn set_dst_periph4dma2(self, periph: Periph4Dma2) -> (r: Self)
        ensures
            r.0 == bits::with_field(self.0, 6, 5, periph.value()),
            bits::field(r.0, 6, 5) == periph.value(),
            bits::same_outside(self.0, r.0, 6, 5),
    {
        proof {
            bits::lemma_low_masks();
        }
        Self(bits::set_field(self.0, 6, 5, periph.to_u32()))
    }

    /// Get destination peripheral for DMA 0/1.
    pub fn dst_periph4dma01(self) -> (r: Periph4Dma01)
        requires
            Periph4Dma01::is_value(bits::field(self.0, 6, 5)),
        ensures
            r.value() == bits::field(self.0, 6, 5),
    {
        proof {
            bits::lemma_low_masks();
        }
        match bits::get_field(self.0, 6, 5) {
            0 => Periph4Dma01::Uart0Rx,
            1 => Periph4Dma01::Uart0Tx,
            2 => Periph4Dma01::Uart1Rx,
            3 => Periph4Dma01::Uart1Tx,
            4 => Periph4Dma01::Uart2Rx,
            5 => Periph4Dma01::Uart2Tx,
            6 => Periph4Dma01::I2c0Rx,
            7 => Periph4Dma01::I2c0Tx,
            8 => Periph4Dma01::IrTx,
            9 => Periph4Dma01::GpioTx,
            10 => Periph4Dma01::Spi0Rx,
            11 => Periph4Dma01::Spi0Tx,
            12 => Periph4Dma01::AudioRx,
            13 => Periph4Dma01::AudioTx,
            14 => Periph4Dma01::I2c1Rx,
            15 => Periph4Dma01::I2c1Tx,
            16 => Periph4Dma01::I2sRx,
            17 => Periph4Dma01::I2sTx,
            18 => Periph4Dma01::PdmRx,
            22 => Periph4Dma01::GpAdc,
            23 => Periph4Dma01::GpDac,
            _ => Periph4Dma01::GpDac,
        }
    }

    /// Get destination peripheral for DMA2.
    pub fn dst_periph4dma2(self) -> (r: Periph4Dma2)
        requires
            Periph4Dma2::is_value(bits::field(self.0, 6, 5)),
        ensures
            r.value() == bits::field(self.0, 6, 5),
    {
        proof {
            bits::lemma_low_masks();
        }
        match bits::get_field(self.0, 6, 5) {
            0 => Periph4Dma2::Uart3Rx,
            1 => Periph4Dma2::Uart3Tx,
            2 => Periph4Dma2::Spi1Rx,
            3 => Periph4Dma2::Spi1Tx,
            6 => Periph4Dma2::I2c2Rx,
            7 => Periph4Dma2::I2c2Tx,
            8 => Periph4Dma2::I2c3Rx,
            9 => Periph4Dma2::I2c3Tx,
            10 => Periph4Dma2::DsiRx,
            11 => Periph4Dma2::DsiTx,
            22 => Periph4Dma2::DbiTx,
            _ => Periph4Dma2::DbiTx,
        }
    }

    /// Set source peripheral for DMA 0/1.
    pub fn set_src_periph4dma01(self, periph: Periph4Dma01) -> (r: Self)
        ensures
            r.0 == bits::with_field(self.0, 1, 5, periph.value()),
            bits::field(r.0, 1, 5) == periph.value(),
            bits::same_outside(self.0, r.0, 1, 5),
    {
        proof {
            bits::lemma_low_masks();
        }
        Self(bits::set_field(self.0, 1, 5, periph.to_u32()))
    }

    /// Set source peripheral for DMA2.
    pub fn set_src_periph4dma2(self, periph: Periph4Dma2) -> (r: Self)
        ensures
            r.0 == bits::with_field(self.0, 1, 5, periph.value()),
            bits::field(r.0, 1, 5) == periph.value(),
            bits::same_outside(self.0, r.0, 1, 5),
    {
        proof {
            bits::lemma_low_masks();
        }
        Self(bits::set_field(self.0, 1, 5, periph.to_u32()))
    }

    /// Get source peripheral for DMA 0/1.
    pub fn src_periph4dma01(self) -> (r: Periph4Dma01)
        requires
            Periph4Dma01::is_value(bits::field(self.0, 1, 5)),
        ensures
            r.value() == bits::field(self.0, 1, 5),
    {
        proof {
            bits::lemma_low_masks();
        }
        match bits::get_field(self.0, 1, 5) {
            0 => Periph4Dma01::Uart0Rx,
            1 => Periph4Dma01::Uart0Tx,
            2 => Periph4Dma01::Uart1Rx,
            3 => Periph4Dma01::Uart1Tx,
            4 => Periph4Dma01::Uart2Rx,
            5 => Periph4Dma01::Uart2Tx,
            6 => Periph4Dma01::I2c0Rx,
            7 => Periph4Dma01::I2c0Tx,
            8 => Periph4Dma01::IrTx,
            9 => Periph4Dma01::GpioTx,
            10 => Periph4Dma01::Spi0Rx,
            11 => Periph4Dma01::Spi0Tx,
            12 => Periph4Dma01::AudioRx,
            13 => Periph4Dma01::AudioTx,
            14 => Periph4Dma01::I2c1Rx,
            15 => Periph4Dma01::I2c1Tx,
            16 => Periph4Dma01::I2sRx,
            17 => Periph4Dma01::I2sTx,
            18 => Periph4Dma01::PdmRx,
            22 => Periph4Dma01::GpAdc,
            23 => Periph4Dma01::GpDac,
            _ => Periph4Dma01::GpDac,
        }
    }

    /// Get source peripheral for DMA2.
    pub fn src_periph4dma2(self) -> (r: Periph4Dma2)
        requires
            Periph4Dma2::is_value(bits::field(self.0, 1, 5)),
        ensures
            r.value() == bits::field(self.0, 1, 5),
    {
        proof {
            bits::lemma_low_masks();
        }
        match bits::get_field(self.0, 1, 5) {
            0 => Periph4Dma2::Uart3Rx,
            1 => Periph4Dma2::Uart3Tx,
            2 => Periph4Dma2::Spi1Rx,
            3 => Periph4Dma2::Spi1Tx,
            6 => Periph4Dma2::I2c2Rx,
            7 => Periph4Dma2::I2c2Tx,
            8 => Periph4Dma2::I2c3Rx,
            9 => Periph4Dma2::I2c3Tx,
            10 => Periph4Dma2::DsiRx,
            11 => Periph4Dma2::DsiTx,
            22 => Periph4Dma2::DbiTx,
            _ => Periph4Dma2::DbiTx,
        }
    }

    /// Enable channel.
    pub fn enable_ch(self) -> (r: Self)
        ensures
            r.0 == bits::with_field(self.0, 0, 1, 1),
            bits::field(r.0, 0, 1) == 1,
            bits::same_outside(self.0, r.0, 0, 1),
    {
        Self(bits::set_bit(self.0, 0))
    }

    /// Disable channel.
    pub fn disable_ch(self) -> (r: Self)
        ensures
            r.0 == bits::with_field(self.0, 0, 1, 0),
            bits::field(r.0, 0, 1) == 0,
            bits::same_outside(self.0, r.0, 0, 1),
    {
        Self(bits::clear_bit(self.0, 0))
    }

    /// Check if channel is enabled.
    pub fn is_ch_enabled(self) -> (r: bool)
        ensures
            r == (bits::field(self.0, 0, 1) == 1),
    {
        bits::test_bit(self.0, 0)
    }
}

/// Facts on bit `ch` of a byte register, seen as a 32-bit word.
proof fn lemma_byte_bit(x: u8, ch: u8)
    by (bit_vector)
    requires
        ch < 8,
    ensures
        ((x >> ch) & 1 != 0) == (bits::field(x as u32, ch as u32, 1) == 1),
        bits::field((x | (1u8 << ch)) as u32, ch as u32, 1) == 1,
        bits::same_outside(x as u32, (x | (1u8 << ch)) as u32, ch as u32, 1),
{
}

impl GlobalState {
    /// Check if channel interrupt occurs.
    pub fn if_int_occurs(self, ch: u8) -> (r: bool)
        requires
            ch < 8,
        ensures
            r == (bits::field(self.0 as u32, ch as u32, 1) == 1),
    {
        proof {
            lemma_byte_bit(self.0, ch);
        }
        ((self.0 >> ch) & 1) != 0
    }
}

impl TransferCompleteState {
    /// Check if channel complete interrupt occurs.
    pub fn if_cplt_int_occurs(self, ch: u8) -> (r: bool)
        requires
            ch < 8,
        ensures
            r == (bits::field(self.0 as u32, ch as u32, 1) == 1),
    {
        proof {
            lemma_byte_bit(self.0, ch);
        }
        ((self.0 >> ch) & 1) != 0
    }
}

impl TransferCompleteClear {
    /// Clear channel complete interrupt states.
    pub fn clear_cplt_int(self, ch: u8) -> (r: Self)
        requires
            ch < 8,
        ensures
            r.0 == self.0 | (1u8 << ch),
            bits::field(r.0 as u32, ch as u32, 1) == 1,
            bits::same_outside(self.0 as u32, r.0 as u32, ch as u32, 1),
    {
        proof {
            lemma_byte_bit(self.0, ch);
        }
        Self(self.0 | (1u8 << ch))
    }
}

impl ErrorState {
    /// Check if channel error interrupt occurs.
    pub fn if_err_int_occurs(self, ch: u8) -> (r: bool)
        requires
            ch < 8,
        ensures
            r == (bits::field(self.0 as u32, ch as u32, 1) == 1),
    {
        proof {
            lemma_byte_bit(self.0, ch);
        }
        ((self.0 >> ch) & 1) != 0
    }
}

impl ErrorClear {
    /// Clear channel complete interrupt states.
    pub fn clear_err_int(self, ch: u8) -> (r: Self)
        requires
            ch < 8,
        ensures
            r.0 == self.0 | (1u8 << ch),
            bits::field(r.0 as u32, ch as u32, 1) == 1,
            bits::same_outside(self.0 as u32, r.0 as u32, ch as u32, 1),
    {
        proof {
            lemma_byte_bit(self.0, ch);
        }
        Self(self.0 | (1u8 << ch))
    }
}

impl RawTransferComplete {
    /// Check if raw channel complete interrupt occurs.
    pub fn if_raw_cplt_int_occurs(self, ch: u8) -> (r: bool)
        requires
            ch < 8,
        ensures
            r == (bits::field(self.0 as u32, ch as u32, 1) == 1),
    {
        proof {
            lemma_byte_bit(self.0, ch);
        }
        ((self.0 >> ch) & 1) != 0
    }
}

impl RawError {
    /// Check if channel error interrupt occurs.
    pub fn if_raw_error_occurs(self, ch: u8) -> (r: bool)
        requires
            ch < 8,
        ensures
            r == (bits::field(self.0 as u32, ch as u32, 1) == 1),
    {
        proof {
            lemma_byte_bit(self.0, ch);
        }
        ((self.0 >> ch) & 1) != 0
    }
}

impl EnabledChannels {
    /// Check if channel interrupt is enabled.
    pub fn is_ch_enabled(self, ch: u8) -> (r: bool)
        requires
            ch < 8,
        ensures
            r == (bits::field(self.0 as u32, ch as u32, 1) == 1),
    {
        proof {
            lemma_byte_bit(self.0, ch);
        }
        ((self.0 >> ch) & 1) != 0
    }
}

impl ChannelConfig {
    /// Set destination peripheral for any DMA.
    ///
    /// The identifier is written at bit 6 without masking: an identifier
    /// that does not fit in the 5-bit field spills into the bits above it.
    pub fn set_dst_periph<P: PeripheralId>(self, periph: P) -> (r: Self)
        ensures
            r.0 == bits::or_field(self.0, 6, 5, periph.spec_id() as u32),
            periph.spec_id() <= 0x1f ==> bits::field(r.0, 6, 5) == periph.spec_id() as u32
                && bits::same_outside(self.0, r.0, 6, 5),
    {
        proof {
            bits::lemma_low_masks();
        }
        Self(bits::or_into_field(self.0, 6, 5, periph.id() as u32))
    }

    /// Clear destination peripheral for any DMA.
    pub fn clear_dst_periph(self) -> (r: Self)
        ensures
            r.0 == bits::with_field(self.0, 6, 5, 0),
            bits::field(r.0, 6, 5) == 0,
            bits::same_outside(self.0, r.0, 6, 5),
    {
        Self(bits::set_field(self.0, 6, 5, 0))
    }

    /// Set source peripheral for any DMA.
    ///
    /// The identifier is written at bit 1 without masking: an identifier
    /// that does not fit in the 5-bit field spills into the bits above it.
    pub fn set_src_periph<P: PeripheralId>(self, periph: P) -> (r: Self)
        ensures
            r.0 == bits::or_field(self.0, 1, 5, periph.spec_id() as u32),
            periph.spec_id() <= 0x1f ==> bits::field(r.0, 1, 5) == periph.spec_id() as u32
                && bits::same_outside(self.0, r.0, 1, 5),
    {
        proof {
            bits::lemma_low_masks();
        }
        Self(bits::or_into_field(self.0, 1, 5, periph.id() as u32))
    }

    /// Clear source peripheral for any DMA.
    pub fn clear_src_periph(self) -> (r: Self)
        ensures
            r.0 == bits::with_field(self.0, 1, 5, 0),
            bits::field(r.0, 1, 5) == 0,
            bits::same_outside(self.0, r.0, 1, 5),
    {
        Self(bits::set_field(self.0, 1, 5, 0))
    }
}

/// DMA peripheral request definition
#[derive(Clone, Copy, Debug, PartialEq, Eq, Hash, Structural)]
pub enum DmaPeriphReq {
    /// Dma request for peripheral for DMA 0/1.
    Dma01(Periph4Dma01),
    /// Dma request for peripheral for DMA 2.
    Dma2(Periph4Dma2),
    /// No dma request for peripheral.
    NoRequest,
}

/// Linked list item pool descriptor.
#[derive(Clone, Copy, Debug, PartialEq, Eq, Hash, Structural)]
pub struct LliPool {
    /// Source address.
    pub src_addr: u32,
    /// Destination address.
    pub dst_addr: u32,
    /// Physical address to next linked list item.
    pub next_lli: u32,
    /// Linked list item control register.
    pub control: LliControl,
}

impl LliPool {
    /// An item with every field zero.
    pub fn new() -> (r: Self)
        ensures
            r == (LliPool { src_addr: 0, dst_addr: 0, next_lli: 0, control: LliControl(0) }),
    {
        Self { src_addr: 0, dst_addr: 0, next_lli: 0, control: LliControl(0) }
    }
}

/// Linked list item transfer descriptor.
#[derive(Clone, Copy, Debug, PartialEq, Eq, Hash, Structural)]
pub struct LliTransfer {
    /// Source address.
    pub src_addr: u32,
    /// Destination address.
    pub dst_addr: u32,
    /// How many bytes should be transferred.
    pub nbytes: u32,
}

} // verus!
