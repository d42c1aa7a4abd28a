//! Register values of the general purpose ADC and DAC peripheral (GPIP).
use vstd::prelude::*;

use crate::bits;

verus! {

/// Fifo threshold of gpadc.
#[derive(Clone, Copy, Debug, PartialEq, Eq, Hash, Structural)]
pub enum GpadcFifoThreshold {
    OneData,
    FourData,
    EightData,
    SixteenData,
}

impl GpadcFifoThreshold {
    /// Number that stands for this value in a register field.
    pub open spec fn value(self) -> u32 {
        match self {
            GpadcFifoThreshold::OneData => 0,
            GpadcFifoThreshold::FourData => 1,
            GpadcFifoThreshold::EightData => 2,
            GpadcFifoThreshold::SixteenData => 3,
        }
    }

    /// Whether `v` is the number of some value.
    pub open spec fn is_value(v: u32) -> bool {
        v <= 3
    }

    /// Number that stands for this value in a register field.
    pub fn to_u32(self) -> (r: u32)
        ensures
            r == self.value(),
            r <= 3,
    {
        match self {
            GpadcFifoThreshold::OneData => 0,
            GpadcFifoThreshold::FourData => 1,
            GpadcFifoThreshold::EightData => 2,
            GpadcFifoThreshold::SixteenData => 3,
        }
    }
}

/// GpadcTsenMode.
#[derive(Clone, Copy, Debug, PartialEq, Eq, Hash, Structural)]
pub enum GpadcTsenMode {
    InternalDiode,
    ExternalDiode,
}

impl GpadcTsenMode {
    /// Number that stands for this value in a register field.
    pub open spec fn value(self) -> u32 {
        match self {
            GpadcTsenMode::InternalDiode => 0,
            GpadcTsenMode::ExternalDiode => 1,
        }
    }

    /// Whether `v` is the number of some value.
    pub open spec fn is_value(v: u32) -> bool {
        v <= 1
    }

    /// Number that stands for this value in a register field.
    pub fn to_u32(self) -> (r: u32)
        ensures
            r == self.value(),
            r <= 1,
    {
        match self {
            GpadcTsenMode::InternalDiode => 0,
            GpadcTsenMode::ExternalDiode => 1,
        }
    }
}

/// Adc command.
#[derive(Clone, Copy, Debug, PartialEq, Eq, Hash, Structural)]
pub enum AdcCommmand {
    ClearFifo,
    VbatEn,
}

impl AdcCommmand {
    /// Number that stands for this value in a register field.
    pub open spec fn value(self) -> u32 {
        match self {
            AdcCommmand::ClearFifo => 0,
            AdcCommmand::VbatEn => 1,
        }
    }

    /// Whether `v` is the number of some value.
    pub open spec fn is_value(v: u32) -> bool {
        v <= 1
    }

    /// Number that stands for this value in a register field.
    pub fn to_u32(self) -> (r: u32)
        ensures
            r == self.value(),
            r <= 1,
    {
        match self {
            AdcCommmand::ClearFifo => 0,
            AdcCommmand::VbatEn => 1,
        }
    }
}

/// Generic Analog-to-Digital Converter configuration register.
#[derive(Clone, Copy, Debug, PartialEq, Eq, Hash, Structural)]
pub struct GpadcConfig(pub u32);

impl GpadcConfig {
    /// Set fifo threshold.
    pub fn set_fifo_threshold(self, fifo_thres: GpadcFifoThreshold) -> (r: Self)
        ensures
            r.0 == bits::with_field(self.0, 22, 2, fifo_thres.value()),
            bits::field(r.0, 22, 2) == fifo_thres.value(),
            bits::same_outside(self.0, r.0, 22, 2),
    {
        proof {
            bits::lemma_low_masks();
        }
        Self(bits::set_field(self.0, 22, 2, fifo_thres.to_u32()))
    }

    /// Get fifo threshold.
    pub fn fifo_threshold(self) -> (r: GpadcFifoThreshold)
        ensures
            r.value() == bits::field(self.0, 22, 2),
    {
        proof {
            bits::lemma_low_masks();
        }
        match bits::get_field(self.0, 22, 2) {
            0 => GpadcFifoThreshold::OneData,
            1 => GpadcFifoThreshold::FourData,
            2 => GpadcFifoThreshold::EightData,
            3 => GpadcFifoThreshold::SixteenData,
            _ => GpadcFifoThreshold::SixteenData,
        }
    }

    /// Get fifo data count.
    pub fn fifo_data_count(self) -> (r: u16)
        ensures
            r as u32 == bits::field(self.0, 16, 6),
    {
        proof {
            bits::lemma_low_masks();
        }
        bits::get_field(self.0, 16, 6) as u16
    }

    /// Enable fifo ready interrupt.
    pub fn enable_fifo_ready(self) -> (r: Self)
        ensures
            r.0 == bits::with_field(self.0, 15, 1, 0),
            bits::field(r.0, 15, 1) == 0,
            bits::same_outside(self.0, r.0, 15, 1),
    {
        Self(bits::clear_bit(self.0, 15))
    }

    /// Disable fifo ready interrupt.
    pub fn disable_fifo_ready(self) -> (r: Self)
        ensures
            r.0 == bits::with_field(self.0, 15, 1, 1),
            bits::field(r.0, 15, 1) == 1,
            bits::same_outside(self.0, r.0, 15, 1),
    {
        Self(bits::set_bit(self.0, 15))
    }

    /// Check if fifo ready interrupt is enabled.
    pub fn is_fifo_ready_enabled(self) -> (r: bool)
        ensures
            r == (bits::field(self.0, 15, 1) == 0),
    {
        !bits::test_bit(self.0, 15)
    }

    /// Enable fifo underrun interrupt.
    pub fn enable_fifo_underrun(self) -> (r: Self)
        ensures
            r.0 == bits::with_field(self.0, 14, 1, 0),
            bits::field(r.0, 14, 1) == 0,
            bits::same_outside(self.0, r.0, 14, 1),
    {
        Self(bits::clear_bit(self.0, 14))
    }

    /// Disable fifo underrun interrupt.
    pub fn disable_fifo_underrun(self) -> (r: Self)
        ensures
            r.0 == bits::with_field(self.0, 14, 1, 1),
            bits::field(r.0, 14, 1) == 1,
            bits::same_outside(self.0, r.0, 14, 1),
    {
        Self(bits::set_bit(self.0, 14))
    }

    /// Check if fifo underrun interrupt is enabled.
    pub fn is_fifo_underrun_enabled(self) -> (r: bool)
        ensures
            r == (bits::field(self.0, 14, 1) == 0),
    {
        !bits::test_bit(self.0, 14)
    }

    /// Enable fifo overrun interrupt.
    pub fn enable_fifo_overrun(self) -> (r: Self)
        ensures
            r.0 == bits::with_field(self.0, 13, 1, 0),
            bits::field(r.0, 13, 1) == 0,
            bits::same_outside(self.0, r.0, 13, 1),
    {
        Self(bits::clear_bit(self.0, 13))
    }

    /// Disable fifo overrun interrupt.
    pub fn disable_fifo_overrun(self) -> (r: Self)
        ensures
            r.0 == bits::with_field(self.0, 13, 1, 1),
            bits::field(r.0, 13, 1) == 1,
            bits::same_outside(self.0, r.0, 13, 1),
    {
        Self(bits::set_bit(self.0, 13))
    }

    /// Check if fifo overrun interrupt is enabled.
    pub fn is_fifo_overrun_enabled(self) -> (r: bool)
        ensures
            r == (bits::field(self.0, 13, 1) == 0),
    {
        !bits::test_bit(self.0, 13)
    }

    /// Enable adc coversion ready interrupt.
    pub fn enable_adc_ready(self) -> (r: Self)
        ensures
            r.0 == bits::with_field(self.0, 12, 1, 0),
            bits::field(r.0, 12, 1) == 0,
            bits::same_outside(self.0, r.0, 12, 1),
    {
        Self(bits::clear_bit(self.0, 12))
    }

    /// Disable adc coversion ready interrupt.
    pub fn disable_adc_ready(self) -> (r: Self)
        ensures
            r.0 == bits::with_field(self.0, 12, 1, 1),
            bits::field(r.0, 12, 1) == 1,
            bits::same_outside(self.0, r.0, 12, 1),
    {
        Self(bits::set_bit(self.0, 12))
    }

    /// Check if adc coversion ready interrupt is enabled.
    pub fn is_adc_ready_enabled(self) -> (r: bool)
        ensures
            r == (bits::field(self.0, 12, 1) == 0),
    {
        !bits::test_bit(self.0, 12)
    }

    /// Clear fifo underrun interrupt flag.
    pub fn clear_fifo_underrun(self) -> (r: Self)
        ensures
            r.0 == bits::with_field(self.0, 10, 1, 1),
            bits::field(r.0, 10, 1) == 1,
            bits::same_outside(self.0, r.0, 10, 1),
    {
        Self(bits::set_bit(self.0, 10))
    }

    /// Set fifo underrun interrupt flag bit.
    pub fn set_fifo_underrun_clr_bit(self, bit: u8) -> (r: Self)
        ensures
            r.0 == bits::with_field(self.0, 10, 1, bit as u32),
            bits::field(r.0, 10, 1) == (bit as u32) & 0x1,
            bits::same_outside(self.0, r.0, 10, 1),
    {
        proof {
            bits::lemma_low_masks();
        }
        Self(bits::set_field(self.0, 10, 1, bit as u32))
    }

    /// Clear fifo overrun interrupt flag.
    pub fn clear_fifo_overrun(self) -> (r: Self)
        ensures
            r.0 == bits::with_field(self.0, 9, 1, 1),
            bits::field(r.0, 9, 1) == 1,
            bits::same_outside(self.0, r.0, 9, 1),
    {
        Self(bits::set_bit(self.0, 9))
    }

    /// Set fifo overrun interrupt flag bit.
    pub fn set_fifo_overrun_clr_bit(self, bit: u8) -> (r: Self)
        ensures
            r.0 == bits::with_field(self.0, 9, 1, bit as u32),
            bits::field(r.0, 9, 1) == (bit as u32) & 0x1,
            bits::same_outside(self.0, r.0, 9, 1),
    {
        proof {
            bits::lemma_low_masks();
        }
        Self(bits::set_field(self.0, 9, 1, bit as u32))
    }

    /// Clear adc coversion ready interrupt flag.
    pub fn clear_adc_ready(self) -> (r: Self)
        ensures
            r.0 == bits::with_field(self.0, 8, 1, 1),
            bits::field(r.0, 8, 1) == 1,
            bits::same_outside(self.0, r.0, 8, 1),
    {
        Self(bits::set_bit(self.0, 8))
    }

    /// Set adc coversion ready interrupt flag bit.
    pub fn set_adc_ready_clr_bit(self, bit: u8) -> (r: Self)
        ensures
            r.0 == bits::with_field(self.0, 8, 1, bit as u32),
            bits::field(r.0, 8, 1) == (bit as u32) & 0x1,
            bits::same_outside(self.0, r.0, 8, 1),
    {
        proof {
            bits::lemma_low_masks();
        }
        Self(bits::set_field(self.0, 8, 1, bit as u32))
    }

    /// Check if fifo underrun interrupt occurs.
    pub fn if_fifo_underrun_occurs(self) -> (r: bool)
        ensures
            r == (bits::field(self.0, 6, 1) == 1),
    {
        bits::test_bit(self.0, 6)
    }

    /// Check if fifo overrun interrupt occurs.
    pub fn if_fifo_overrun_occurs(self) -> (r: bool)
        ensures
            r == (bits::field(self.0, 5, 1) == 1),
    {
        bits::test_bit(self.0, 5)
    }

    /// Check if fifo coversion is ready.
    pub fn is_fifo_ready(self) -> (r: bool)
        ensures
            r == (bits::field(self.0, 7, 1) == 1),
    {
        bits::test_bit(self.0, 7)
    }

    /// Set fifo ready bit.
    pub fn set_fifo_ready_bit(self, bit: u8) -> (r: Self)
        ensures
            r.0 == bits::with_field(self.0, 7, 1, bit as u32),
            bits::field(r.0, 7, 1) == (bit as u32) & 0x1,
            bits::same_outside(self.0, r.0, 7, 1),
    {
        proof {
            bits::lemma_low_masks();
        }
        Self(bits::set_field(self.0, 7, 1, bit as u32))
    }

    /// Check if adc coversion is ready.
    pub fn is_adc_ready(self) -> (r: bool)
        ensures
            r == (bits::field(self.0, 4, 1) == 1),
    {
        bits::test_bit(self.0, 4)
    }

    /// Check if fifo is full.
    pub fn is_fifo_full(self) -> (r: bool)
        ensures
            r == (bits::field(self.0, 3, 1) == 1),
    {
        bits::test_bit(self.0, 3)
    }

    /// Check if fifo is not empty.
    pub fn is_fifo_not_empty(self) -> (r: bool)
        ensures
            r == (bits::field(self.0, 2, 1) == 1),
    {
        bits::test_bit(self.0, 2)
    }

    /// Clear fifo.
    pub fn clear_fifo(self) -> (r: Self)
        ensures
            r.0 == bits::with_field(self.0, 1, 1, 1),
            bits::field(r.0, 1, 1) == 1,
            bits::same_outside(self.0, r.0, 1, 1),
    {
        Self(bits::set_bit(self.0, 1))
    }

    /// Set fifo clear bit.
    pub fn set_fifo_clear_bit(self, bit: u8) -> (r: Self)
        ensures
            r.0 == bits::with_field(self.0, 1, 1, bit as u32),
            bits::field(r.0, 1, 1) == (bit as u32) & 0x1,
            bits::same_outside(self.0, r.0, 1, 1),
    {
        proof {
            bits::lemma_low_masks();
        }
        Self(bits::set_field(self.0, 1, 1, bit as u32))
    }

    /// Enable dma.
    pub fn enable_dma(self) -> (r: Self)
        ensures
            r.0 == bits::with_field(self.0, 0, 1, 1),
            bits::field(r.0, 0, 1) == 1,
            bits::same_outside(self.0, r.0, 0, 1),
    {
        Self(bits::set_bit(self.0, 0))
    }

    /// Disable dma.
    pub fn disable_dma(self) -> (r: Self)
        ensures
            r.0 == bits::with_field(self.0, 0, 1, 0),
            bits::field(r.0, 0, 1) == 0,
            bits::same_outside(self.0, r.0, 0, 1),
    {
        Self(bits::clear_bit(self.0, 0))
    }

    /// Check if dma is enabled.
    pub fn is_dma_enabled(self) -> (r: bool)
        ensures
            r == (bits::field(self.0, 0, 1) == 1),
    {
        bits::test_bit(self.0, 0)
    }
}

/// Gpadc DMA read data register.
#[derive(Clone, Copy, Debug, PartialEq, Eq, Hash, Structural)]
pub struct GpadcDmaRdata(pub u32);

impl GpadcDmaRdata {
    /// Get dma rdata.
    pub fn dma_rdata(self) -> (r: u32)
        ensures
            r == bits::field(self.0, 0, 26),
    {
        proof {
            bits::lemma_low_masks();
        }
        bits::get_field(self.0, 0, 26)
    }
}

/// Gpadc PIR training register.
#[derive(Clone, Copy, Debug, PartialEq, Eq, Hash, Structural)]
pub struct GpadcPirTrain(pub u32);

impl GpadcPirTrain {
    /// Check if pir training stops.
    pub fn if_pir_training_stops(self) -> (r: bool)
        ensures
            r == (bits::field(self.0, 17, 1) == 1),
    {
        bits::test_bit(self.0, 17)
    }

    /// Set pir training mode.
    pub fn set_pir_training_mode(self, val: u8) -> (r: Self)
        ensures
            r.0 == bits::with_field(self.0, 16, 1, val as u32),
            bits::field(r.0, 16, 1) == (val as u32) & 0x1,
            bits::same_outside(self.0, r.0, 16, 1),
    {
        proof {
            bits::lemma_low_masks();
        }
        Self(bits::set_field(self.0, 16, 1, val as u32))
    }

    /// Get pir training mode.
    pub fn pir_training_mode(self) -> (r: u8)
        ensures
            r as u32 == bits::field(self.0, 16, 1),
    {
        proof {
            bits::lemma_low_masks();
        }
        bits::get_field(self.0, 16, 1) as u8
    }

    /// Get gpadc record extension counter value.
    pub fn pir_counter_value(self) -> (r: u8)
        ensures
            r as u32 == bits::field(self.0, 8, 5),
    {
        proof {
            bits::lemma_low_masks();
        }
        bits::get_field(self.0, 8, 5) as u8
    }

    /// Get gpadc record extension after pir interrupt.
    pub fn pir_extend(self) -> (r: u8)
        ensures
            r as u32 == bits::field(self.0, 0, 5),
    {
        proof {
            bits::lemma_low_masks();
        }
        bits::get_field(self.0, 0, 5) as u8
    }

    /// Set gpadc record extension after pir interrupt.
    pub fn set_pir_extend(self, val: u8) -> (r: Self)
        ensures
            r.0 == bits::with_field(self.0, 0, 5, val as u32),
            bits::field(r.0, 0, 5) == (val as u32) & 0x1f,
            bits::same_outside(self.0, r.0, 0, 5),
    {
        proof {
            bits::lemma_low_masks();
        }
        Self(bits::set_field(self.0, 0, 5, val as u32))
    }
}

/// GpdacConfig.
#[derive(Clone, Copy, Debug, PartialEq, Eq, Hash, Structural)]
pub struct GpdacConfig(pub u32);

/// GpdacDmaConfig.
#[derive(Clone, Copy, Debug, PartialEq, Eq, Hash, Structural)]
pub struct GpdacDmaConfig(pub u32);

/// GpdacDmaWdata.
#[derive(Clone, Copy, Debug, PartialEq, Eq, Hash, Structural)]
pub struct GpdacDmaWdata(pub u32);

/// GpdacTxFifoStatus.
#[derive(Clone, Copy, Debug, PartialEq, Eq, Hash, Structural)]
pub struct GpdacTxFifoStatus(pub u32);

/// GpdacCtrl.
#[derive(Clone, Copy, Debug, PartialEq, Eq, Hash, Structural)]
pub struct GpdacCtrl(pub u32);

/// GpdacActrl.
#[derive(Clone, Copy, Debug, PartialEq, Eq, Hash, Structural)]
pub struct GpdacActrl(pub u32);

/// GpdacBctrl.
#[derive(Clone, Copy, Debug, PartialEq, Eq, Hash, Structural)]
pub struct GpdacBctrl(pub u32);

/// GpdacData.
#[derive(Clone, Copy, Debug, PartialEq, Eq, Hash, Structural)]
pub struct GpdacData(pub u32);

/// Dac coniguration structure.
#[derive(Clone, Copy, Debug, PartialEq, Eq, Hash, Structural)]
pub struct DacConfig {}

} // verus!
