//! Register values of the pulse width modulation (PWM) peripheral.
use vstd::prelude::*;

use crate::bits;

verus! {

/// ADC trigger source.
#[derive(Clone, Copy, Debug, PartialEq, Eq, Hash, Structural)]
pub enum AdcTriggerSource {
    Channel0LowThreashold,
    Channel0HighThreashold,
    Channel1LowThreashold,
    Channel1HighThreashold,
    Channel2LowThreashold,
    Channel2HighThreashold,
    Channel3LowThreashold,
    Channel3HighThreashold,
    PeriodEnd,
}

impl AdcTriggerSource {
    /// Number that stands for this value in a register field.
    pub open spec fn value(self) -> u32 {
        match self {
            AdcTriggerSource::Channel0LowThreashold => 0,
            AdcTriggerSource::Channel0HighThreashold => 1,
            AdcTriggerSource::Channel1LowThreashold => 2,
            AdcTriggerSource::Channel1HighThreashold => 3,
            AdcTriggerSource::Channel2LowThreashold => 4,
            AdcTriggerSource::Channel2HighThreashold => 5,
            AdcTriggerSource::Channel3LowThreashold => 6,
            AdcTriggerSource::Channel3HighThreashold => 7,
            AdcTriggerSource::PeriodEnd => 8,
        }
    }

    /// Whether `v` is the number of some value.
    pub open spec fn is_value(v: u32) -> bool {
        v <= 8
    }

    /// Number that stands for this value in a register field.
    pub fn to_u32(self) -> (r: u32)
        ensures
            r == self.value(),
            r <= 8,
    {
        match self {
            AdcTriggerSource::Channel0LowThreashold => 0,
            AdcTriggerSource::Channel0HighThreashold => 1,
            AdcTriggerSource::Channel1LowThreashold => 2,
            AdcTriggerSource::Channel1HighThreashold => 3,
            AdcTriggerSource::Channel2LowThreashold => 4,
            AdcTriggerSource::Channel2HighThreashold => 5,
            AdcTriggerSource::Channel3LowThreashold => 6,
            AdcTriggerSource::Channel3HighThreashold => 7,
            AdcTriggerSource::PeriodEnd => 8,
        }
    }
}

/// Polarity.
#[derive(Clone, Copy, Debug, PartialEq, Eq, Hash, Structural)]
pub enum Polarity {
    ActiveLow,
    ActiveHigh,
}

impl Polarity {
    /// Number that stands for this value in a register field.
    pub open spec fn value(self) -> u32 {
        match self {
            Polarity::ActiveLow => 0,
            Polarity::ActiveHigh => 1,
        }
    }

    /// Whether `v` is the number of some value.
    pub open spec fn is_value(v: u32) -> bool {
        v <= 1
    }

    /// Number that stands for this value in a register field.
    pub fn to_u32(self) -> (r: u32)
        ensures
            r == self.value(),
            r <= 1,
    {
        match self {
            Polarity::ActiveLow => 0,
            Polarity::ActiveHigh => 1,
        }
    }
}

/// Stop mode.
#[derive(Clone, Copy, Debug, PartialEq, Eq, Hash, Structural)]
pub enum StopMode {
    Abrupt,
    Graceful,
}

impl StopMode {
    /// Number that stands for this value in a register field.
    pub open spec fn value(self) -> u32 {
        match self {
            StopMode::Abrupt => 0,
            StopMode::Graceful => 1,
        }
    }

    /// Whether `v` is the number of some value.
    pub open spec fn is_value(v: u32) -> bool {
        v <= 1
    }

    /// Number that stands for this value in a register field.
    pub fn to_u32(self) -> (r: u32)
        ensures
            r == self.value(),
            r <= 1,
    {
        match self {
            StopMode::Abrupt => 0,
            StopMode::Graceful => 1,
        }
    }
}

/// Clock source.
#[derive(Clone, Copy, Debug, PartialEq, Eq, Hash, Structural)]
pub enum ClockSource {
    Xclk,
    Bclk,
    F32kClk,
}

impl ClockSource {
    /// Number that stands for this value in a register field.
    pub open spec fn value(self) -> u32 {
        match self {
            ClockSource::Xclk => 0,
            ClockSource::Bclk => 1,
            ClockSource::F32kClk => 2,
        }
    }

    /// Whether `v` is the number of some value.
    pub open spec fn is_value(v: u32) -> bool {
        v <= 2
    }

    /// Number that stands for this value in a register field.
    pub fn to_u32(self) -> (r: u32)
        ensures
            r == self.value(),
            r <= 2,
    {
        match self {
            ClockSource::Xclk => 0,
            ClockSource::Bclk => 1,
            ClockSource::F32kClk => 2,
        }
    }
}

/// Electric level.
#[derive(Clone, Copy, Debug, PartialEq, Eq, Hash, Structural)]
pub enum ElectricLevel {
    Low,
    High,
}

impl ElectricLevel {
    /// Number that stands for this value in a register field.
    pub open spec fn value(self) -> u32 {
        match self {
            ElectricLevel::Low => 0,
            ElectricLevel::High => 1,
        }
    }

    /// Whether `v` is the number of some value.
    pub open spec fn is_value(v: u32) -> bool {
        v <= 1
    }

    /// Number that stands for this value in a register field.
    pub fn to_u32(self) -> (r: u32)
        ensures
            r == self.value(),
            r <= 1,
    {
        match self {
            ElectricLevel::Low => 0,
            ElectricLevel::High => 1,
        }
    }
}

/// Interrupt event.
#[derive(Clone, Copy, Debug, PartialEq, Eq, Hash, Structural)]
pub enum Interrupt {
    Channel0LowThreashold,
    Channel0HighThreashold,
    Channel1LowThreashold,
    Channel1HighThreashold,
    Channel2LowThreashold,
    Channel2HighThreashold,
    Channel3LowThreashold,
    Channel3HighThreashold,
    PeriodEnd,
    ExternalBreak,
    RepeatCount,
}

impl Interrupt {
    /// Number that stands for this value in a register field.
    pub open spec fn value(self) -> u32 {
        match self {
            Interrupt::Channel0LowThreashold => 0,
            Interrupt::Channel0HighThreashold => 1,
            Interrupt::Channel1LowThreashold => 2,
            Interrupt::Channel1HighThreashold => 3,
            Interrupt::Channel2LowThreashold => 4,
            Interrupt::Channel2HighThreashold => 5,
            Interrupt::Channel3LowThreashold => 6,
            Interrupt::Channel3HighThreashold => 7,
            Interrupt::PeriodEnd => 8,
            Interrupt::ExternalBreak => 9,
            Interrupt::RepeatCount => 10,
        }
    }

    /// Whether `v` is the number of some value.
    pub open spec fn is_value(v: u32) -> bool {
        v <= 10
    }

    /// Number that stands for this value in a register field.
    pub fn to_u32(self) -> (r: u32)
        ensures
            r == self.value(),
            r <= 10,
    {
        match self {
            Interrupt::Channel0LowThreashold => 0,
            Interrupt::Channel0HighThreashold => 1,
            Interrupt::Channel1LowThreashold => 2,
            Interrupt::Channel1HighThreashold => 3,
            Interrupt::Channel2LowThreashold => 4,
            Interrupt::Channel2HighThreashold => 5,
            Interrupt::Channel3LowThreashold => 6,
            Interrupt::Channel3HighThreashold => 7,
            Interrupt::PeriodEnd => 8,
            Interrupt::ExternalBreak => 9,
            Interrupt::RepeatCount => 10,
        }
    }
}

/// Interrupt configuration register.
#[derive(Clone, Copy, Debug, PartialEq, Eq, Hash, Default, Structural)]
pub struct InterruptConfig(pub u32);

impl InterruptConfig {
    /// Clear group 0 interrupt.
    pub fn clear_group_0_interrupt(self) -> (r: Self)
        ensures
            r.0 == bits::with_field(self.0, 0, 1, 1),
            bits::field(r.0, 0, 1) == 1,
            bits::same_outside(self.0, r.0, 0, 1),
    {
        Self(bits::set_bit(self.0, 0))
    }

    /// Clear group 1 interrupt.
    pub fn clear_group_1_interrupt(self) -> (r: Self)
        ensures
            r.0 == bits::with_field(self.0, 1, 1, 1),
            bits::field(r.0, 1, 1) == 1,
            bits::same_outside(self.0, r.0, 1, 1),
    {
        Self(bits::set_bit(self.0, 1))
    }

    /// Check if group 0 has interrupt.
    pub fn group_0_has_interrupt(self) -> (r: bool)
        ensures
            r == (bits::field(self.0, 8, 1) == 1),
    {
        bits::test_bit(self.0, 8)
    }

    /// Check if group 1 has interrupt.
    pub fn group_1_has_interrupt(self) -> (r: bool)
        ensures
            r == (bits::field(self.0, 9, 1) == 1),
    {
        bits::test_bit(self.0, 9)
    }
}

/// Group configuration register.
#[derive(Clone, Copy, Debug, PartialEq, Eq, Hash, Default, Structural)]
pub struct GroupConfig(pub u32);

impl GroupConfig {
    /// Set clock divide.
    pub fn set_clock_divide(self, val: u16) -> (r: Self)
        ensures
            r.0 == bits::with_field(self.0, 0, 16, val as u32),
            bits::field(r.0, 0, 16) == val as u32,
            bits::same_outside(self.0, r.0, 0, 16),
    {
        proof {
            bits::lemma_low_masks();
        }
        Self(bits::set_field(self.0, 0, 16, val as u32))
    }

    /// Get clock divide.
    pub fn clock_divide(self) -> (r: u16)
        ensures
            r as u32 == bits::field(self.0, 0, 16),
    {
        proof {
            bits::lemma_low_masks();
        }
        bits::get_field(self.0, 0, 16) as u16
    }

    /// Enable stop on repeat.
    pub fn enable_stop_on_repeat(self) -> (r: Self)
        ensures
            r.0 == bits::with_field(self.0, 19, 1, 1),
            bits::field(r.0, 19, 1) == 1,
            bits::same_outside(self.0, r.0, 19, 1),
    {
        Self(bits::set_bit(self.0, 19))
    }

    /// Disable stop on repeat.
    pub fn disable_stop_on_repeat(self) -> (r: Self)
        ensures
            r.0 == bits::with_field(self.0, 19, 1, 0),
            bits::field(r.0, 19, 1) == 0,
            bits::same_outside(self.0, r.0, 19, 1),
    {
        Self(bits::clear_bit(self.0, 19))
    }

    /// Check if stop on repeat is enabled.
    pub fn is_stop_on_repeat(self) -> (r: bool)
        ensures
            r == (bits::field(self.0, 19, 1) == 1),
    {
        bits::test_bit(self.0, 19)
    }

    /// Set ADC trigger source.
    pub fn set_adc_trigger_source(self, val: AdcTriggerSource) -> (r: Self)
        ensures
            r.0 == bits::with_field(self.0, 20, 4, val.value()),
            bits::field(r.0, 20, 4) == val.value(),
            bits::same_outside(self.0, r.0, 20, 4),
    {
        proof {
            bits::lemma_low_masks();
        }
        Self(bits::set_field(self.0, 20, 4, val.to_u32()))
    }

    /// Get ADC trigger source.
    pub fn adc_trigger_source(self) -> (r: AdcTriggerSource)
        requires
            AdcTriggerSource::is_value(bits::field(self.0, 20, 4)),
        ensures
            r.value() == bits::field(self.0, 20, 4),
    {
        proof {
            bits::lemma_low_masks();
        }
        match bits::get_field(self.0, 20, 4) {
            0 => AdcTriggerSource::Channel0LowThreashold,
            1 => AdcTriggerSource::Channel0HighThreashold,
            2 => AdcTriggerSource::Channel1LowThreashold,
            3 => AdcTriggerSource::Channel1HighThreashold,
            4 => AdcTriggerSource::Channel2LowThreashold,
            5 => AdcTriggerSource::Channel2HighThreashold,
            6 => AdcTriggerSource::Channel3LowThreashold,
            7 => AdcTriggerSource::Channel3HighThreashold,
            8 => AdcTriggerSource::PeriodEnd,
            _ => AdcTriggerSource::PeriodEnd,
        }
    }

    /// Enable software break.
    pub fn enable_software_break(self) -> (r: Self)
        ensures
            r.0 == bits::with_field(self.0, 24, 1, 1),
            bits::field(r.0, 24, 1) == 1,
            bits::same_outside(self.0, r.0, 24, 1),
    {
        Self(bits::set_bit(self.0, 24))
    }

    /// Disable software break.
    pub fn disable_software_break(self) -> (r: Self)
        ensures
            r.0 == bits::with_field(self.0, 24, 1, 0),
            bits::field(r.0, 24, 1) == 0,
            bits::same_outside(self.0, r.0, 24, 1),
    {
        Self(bits::clear_bit(self.0, 24))
    }

    /// Check if software break is enabled.
    pub fn is_software_break_enabled(self) -> (r: bool)
        ensures
            r == (bits::field(self.0, 24, 1) == 1),
    {
        bits::test_bit(self.0, 24)
    }

    /// Enable external break.
    pub fn enable_external_break(self) -> (r: Self)
        ensures
            r.0 == bits::with_field(self.0, 25, 1, 1),
            bits::field(r.0, 25, 1) == 1,
            bits::same_outside(self.0, r.0, 25, 1),
    {
        Self(bits::set_bit(self.0, 25))
    }

    /// Disable external break.
    pub fn disable_external_break(self) -> (r: Self)
        ensures
            r.0 == bits::with_field(self.0, 25, 1, 0),
            bits::field(r.0, 25, 1) == 0,
            bits::same_outside(self.0, r.0, 25, 1),
    {
        Self(bits::clear_bit(self.0, 25))
    }

    /// Check if external break is enabled.
    pub fn is_external_break_enabled(self) -> (r: bool)
        ensures
            r == (bits::field(self.0, 25, 1) == 1),
    {
        bits::test_bit(self.0, 25)
    }

    /// Set external break polarity.
    pub fn set_external_break_polarity(self, val: Polarity) -> (r: Self)
        ensures
            r.0 == bits::with_field(self.0, 26, 1, val.value()),
            bits::field(r.0, 26, 1) == val.value(),
            bits::same_outside(self.0, r.0, 26, 1),
    {
        proof {
            bits::lemma_low_masks();
        }
        Self(bits::set_field(self.0, 26, 1, val.to_u32()))
    }

    /// Get external break polarity.
    pub fn external_break_polarity(self) -> (r: Polarity)
        ensures
            r.value() == bits::field(self.0, 26, 1),
    {
        proof {
            bits::lemma_low_masks();
        }
        match bits::get_field(self.0, 26, 1) {
            0 => Polarity::ActiveLow,
            1 => Polarity::ActiveHigh,
            _ => Polarity::ActiveHigh,
        }
    }

    /// Enable stop.
    pub fn enable_stop(self) -> (r: Self)
        ensures
            r.0 == bits::with_field(self.0, 27, 1, 1),
            bits::field(r.0, 27, 1) == 1,
            bits::same_outside(self.0, r.0, 27, 1),
    {
        Self(bits::set_bit(self.0, 27))
    }

    /// Disable stop.
    pub fn disable_stop(self) -> (r: Self)
        ensures
            r.0 == bits::with_field(self.0, 27, 1, 0),
            bits::field(r.0, 27, 1) == 0,
            bits::same_outside(self.0, r.0, 27, 1),
    {
        Self(bits::clear_bit(self.0, 27))
    }

    /// Check if stop is enabled.
    pub fn is_stop_enabled(self) -> (r: bool)
        ensures
            r == (bits::field(self.0, 27, 1) == 1),
    {
        bits::test_bit(self.0, 27)
    }

    /// Set stop mode.
    pub fn set_stop_mode(self, val: StopMode) -> (r: Self)
        ensures
            r.0 == bits::with_field(self.0, 28, 1, val.value()),
            bits::field(r.0, 28, 1) == val.value(),
            bits::same_outside(self.0, r.0, 28, 1),
    {
        proof {
            bits::lemma_low_masks();
        }
        Self(bits::set_field(self.0, 28, 1, val.to_u32()))
    }

    /// Get stop mode.
    pub fn stop_mode(self) -> (r: StopMode)
        ensures
            r.value() == bits::field(self.0, 28, 1),
    {
        proof {
            bits::lemma_low_masks();
        }
        match bits::get_field(self.0, 28, 1) {
            0 => StopMode::Abrupt,
            1 => StopMode::Graceful,
            _ => StopMode::Graceful,
        }
    }

    /// Check if stopped.
    pub fn is_stopped(self) -> (r: bool)
        ensures
            r == (bits::field(self.0, 29, 1) == 1),
    {
        bits::test_bit(self.0, 29)
    }

    /// Set clock source.
    pub fn set_clock_source(self, val: ClockSource) -> (r: Self)
        ensures
            r.0 == bits::with_field(self.0, 30, 2, val.value()),
            bits::field(r.0, 30, 2) == val.value(),
            bits::same_outside(self.0, r.0, 30, 2),
    {
        proof {
            bits::lemma_low_masks();
        }
        Self(bits::set_field(self.0, 30, 2, val.to_u32()))
    }

    /// Get clock source.
    pub fn clock_source(self) -> (r: ClockSource)
        ensures
            ClockSource::is_value(bits::field(self.0, 30, 2)) ==> r.value() == bits::field(self.0, 30, 2),
            !ClockSource::is_value(bits::field(self.0, 30, 2)) ==> r == ClockSource::F32kClk,
    {
        proof {
            bits::lemma_low_masks();
        }
        match bits::get_field(self.0, 30, 2) {
            0 => ClockSource::Xclk,
            1 => ClockSource::Bclk,
            _ => ClockSource::F32kClk,
        }
    }
}

/// Channel configuration register.
#[derive(Clone, Copy, Debug, PartialEq, Eq, Hash, Default, Structural)]
pub struct ChannelConfig(pub u32);

impl ChannelConfig {
    /// Enable positive output.
    pub fn enable_positive_output(self, idx: usize) -> (r: Self)
        requires
            idx < 4,
        ensures
            r.0 == bits::with_field(self.0, (idx * 4) as u32, 1, 1),
            bits::field(r.0, (idx * 4) as u32, 1) == 1,
            bits::same_outside(self.0, r.0, (idx * 4) as u32, 1),
    {
        Self(bits::set_bit(self.0, (idx * 4) as u32))
    }

    /// Disable positive output.
    pub fn disable_positive_output(self, idx: usize) -> (r: Self)
        requires
            idx < 4,
        ensures
            r.0 == bits::with_field(self.0, (idx * 4) as u32, 1, 0),
            bits::field(r.0, (idx * 4) as u32, 1) == 0,
            bits::same_outside(self.0, r.0, (idx * 4) as u32, 1),
    {
        Self(bits::clear_bit(self.0, (idx * 4) as u32))
    }

    /// Check if positive output is enabled.
    pub fn is_positive_output_enabled(self, idx: usize) -> (r: bool)
        requires
            idx < 4,
        ensures
            r == (bits::field(self.0, (idx * 4) as u32, 1) == 1),
    {
        bits::test_bit(self.0, (idx * 4) as u32)
    }

    /// Set positive idle state.
    pub fn set_positive_idle_state(self, idx: usize, val: ElectricLevel) -> (r: Self)
        requires
            idx < 4,
        ensures
            r.0 == bits::with_field(self.0, (1 + idx * 4) as u32, 1, val.value()),
            bits::field(r.0, (1 + idx * 4) as u32, 1) == val.value(),
            bits::same_outside(self.0, r.0, (1 + idx * 4) as u32, 1),
    {
        proof {
            bits::lemma_low_masks();
        }
        Self(bits::set_field(self.0, (1 + idx * 4) as u32, 1, val.to_u32()))
    }

    /// Get positive idle state.
    pub fn positive_idle_state(self, idx: usize) -> (r: ElectricLevel)
        requires
            idx < 4,
        ensures
            r.value() == bits::field(self.0, (1 + idx * 4) as u32, 1),
    {
        proof {
            bits::lemma_low_masks();
        }
        match bits::get_field(self.0, (1 + idx * 4) as u32, 1) {
            0 => ElectricLevel::Low,
            1 => ElectricLevel::High,
            _ => ElectricLevel::High,
        }
    }

    /// Enable negative output.
    pub fn enable_negative_output(self, idx: usize) -> (r: Self)
        requires
            idx < 4,
        ensures
            r.0 == bits::with_field(self.0, (2 + idx * 4) as u32, 1, 1),
            bits::field(r.0, (2 + idx * 4) as u32, 1) == 1,
            bits::same_outside(self.0, r.0, (2 + idx * 4) as u32, 1),
    {
        Self(bits::set_bit(self.0, (2 + idx * 4) as u32))
    }

    /// Disable negative output.
    pub fn disable_negative_output(self, idx: usize) -> (r: Self)
        requires
            idx < 4,
        ensures
            r.0 == bits::with_field(self.0, (2 + idx * 4) as u32, 1, 0),
            bits::field(r.0, (2 + idx * 4) as u32, 1) == 0,
            bits::same_outside(self.0, r.0, (2 + idx * 4) as u32, 1),
    {
        Self(bits::clear_bit(self.0, (2 + idx * 4) as u32))
    }

    /// Check if negative output is enabled.
    pub fn is_negative_output_enabled(self, idx: usize) -> (r: bool)
        requires
            idx < 4,
        ensures
            r == (bits::field(self.0, (2 + idx * 4) as u32, 1) == 1),
    {
        bits::test_bit(self.0, (2 + idx * 4) as u32)
    }

    /// Set negative idle state.
    pub fn set_negative_idle_state(self, idx: usize, val: ElectricLevel) -> (r: Self)
        requires
            idx < 4,
        ensures
            r.0 == bits::with_field(self.0, (3 + idx * 4) as u32, 1, val.value()),
            bits::field(r.0, (3 + idx * 4) as u32, 1) == val.value(),
            bits::same_outside(self.0, r.0, (3 + idx * 4) as u32, 1),
    {
        proof {
            bits::lemma_low_masks();
        }
        Self(bits::set_field(self.0, (3 + idx * 4) as u32, 1, val.to_u32()))
    }

    /// Get negative idle state.
    pub fn negative_idle_state(self, idx: usize) -> (r: ElectricLevel)
        requires
            idx < 4,
        ensures
            r.value() == bits::field(self.0, (3 + idx * 4) as u32, 1),
    {
        proof {
            bits::lemma_low_masks();
        }
        match bits::get_field(self.0, (3 + idx * 4) as u32, 1) {
            0 => ElectricLevel::Low,
            1 => ElectricLevel::High,
            _ => ElectricLevel::High,
        }
    }

    /// Set positive polarity.
    pub fn set_positive_polarity(self, idx: usize, val: Polarity) -> (r: Self)
        requires
            idx < 4,
        ensures
            r.0 == bits::with_field(self.0, (16 + idx * 2) as u32, 1, val.value()),
            bits::field(r.0, (16 + idx * 2) as u32, 1) == val.value(),
            bits::same_outside(self.0, r.0, (16 + idx * 2) as u32, 1),
    {
        proof {
            bits::lemma_low_masks();
        }
        Self(bits::set_field(self.0, (16 + idx * 2) as u32, 1, val.to_u32()))
    }

    /// Get positive polarity.
    pub fn positive_polarity(self, idx: usize) -> (r: Polarity)
        requires
            idx < 4,
        ensures
            r.value() == bits::field(self.0, (16 + idx * 2) as u32, 1),
    {
        proof {
            bits::lemma_low_masks();
        }
        match bits::get_field(self.0, (16 + idx * 2) as u32, 1) {
            0 => Polarity::ActiveLow,
            1 => Polarity::ActiveHigh,
            _ => Polarity::ActiveHigh,
        }
    }

    /// Set negative polarity.
    pub fn set_negative_polarity(self, idx: usize, val: Polarity) -> (r: Self)
        requires
            idx < 4,
        ensures
            r.0 == bits::with_field(self.0, (17 + idx * 2) as u32, 1, val.value()),
            bits::field(r.0, (17 + idx * 2) as u32, 1) == val.value(),
            bits::same_outside(self.0, r.0, (17 + idx * 2) as u32, 1),
    {
        proof {
            bits::lemma_low_masks();
        }
        Self(bits::set_field(self.0, (17 + idx * 2) as u32, 1, val.to_u32()))
    }

    /// Get negative polarity.
    pub fn negative_polarity(self, idx: usize) -> (r: Polarity)
        requires
            idx < 4,
        ensures
            r.value() == bits::field(self.0, (17 + idx * 2) as u32, 1),
    {
        proof {
            bits::lemma_low_masks();
        }
        match bits::get_field(self.0, (17 + idx * 2) as u32, 1) {
            0 => Polarity::ActiveLow,
            1 => Polarity::ActiveHigh,
            _ => Polarity::ActiveHigh,
        }
    }

    /// Set positive break state.
    pub fn set_positive_break_state(self, idx: usize, val: ElectricLevel) -> (r: Self)
        requires
            idx < 4,
        ensures
            r.0 == bits::with_field(self.0, (24 + idx * 2) as u32, 1, val.value()),
            bits::field(r.0, (24 + idx * 2) as u32, 1) == val.value(),
            bits::same_outside(self.0, r.0, (24 + idx * 2) as u32, 1),
    {
        proof {
            bits::lemma_low_masks();
        }
        Self(bits::set_field(self.0, (24 + idx * 2) as u32, 1, val.to_u32()))
    }

    /// Get positive break state.
    pub fn positive_break_state(self, idx: usize) -> (r: ElectricLevel)
        requires
            idx < 4,
        ensures
            r.value() == bits::field(self.0, (24 + idx * 2) as u32, 1),
    {
        proof {
            bits::lemma_low_masks();
        }
        match bits::get_field(self.0, (24 + idx * 2) as u32, 1) {
            0 => ElectricLevel::Low,
            1 => ElectricLevel::High,
            _ => ElectricLevel::High,
        }
    }

    /// Set negative break state.
    pub fn set_negative_break_state(self, idx: usize, val: ElectricLevel) -> (r: Self)
        requires
            idx < 4,
        ensures
            r.0 == bits::with_field(self.0, (25 + idx * 2) as u32, 1, val.value()),
            bits::field(r.0, (25 + idx * 2) as u32, 1) == val.value(),
            bits::same_outside(self.0, r.0, (25 + idx * 2) as u32, 1),
    {
        proof {
            bits::lemma_low_masks();
        }
        Self(bits::set_field(self.0, (25 + idx * 2) as u32, 1, val.to_u32()))
    }

    /// Get negative break state.
    pub fn negative_break_state(self, idx: usize) -> (r: ElectricLevel)
        requires
            idx < 4,
        ensures
            r.value() == bits::field(self.0, (25 + idx * 2) as u32, 1),
    {
        proof {
            bits::lemma_low_masks();
        }
        match bits::get_field(self.0, (25 + idx * 2) as u32, 1) {
            0 => ElectricLevel::Low,
            1 => ElectricLevel::High,
            _ => ElectricLevel::High,
        }
    }
}

/// Period configuration register.
#[derive(Clone, Copy, Debug, PartialEq, Eq, Hash, Default, Structural)]
pub struct PeriodConfig(pub u32);

impl PeriodConfig {
    /// Set period.
    pub fn set_period(self, val: u16) -> (r: Self)
        ensures
            r.0 == bits::with_field(self.0, 0, 16, val as u32),
            bits::field(r.0, 0, 16) == val as u32,
            bits::same_outside(self.0, r.0, 0, 16),
    {
        proof {
            bits::lemma_low_masks();
        }
        Self(bits::set_field(self.0, 0, 16, val as u32))
    }

    /// Get period.
    pub fn period(self) -> (r: u16)
        ensures
            r as u32 == bits::field(self.0, 0, 16),
    {
        proof {
            bits::lemma_low_masks();
        }
        bits::get_field(self.0, 0, 16) as u16
    }

    /// Set interrupt period.
    pub fn set_interrupt_period(self, val: u16) -> (r: Self)
        ensures
            r.0 == bits::with_field(self.0, 16, 16, val as u32),
            bits::field(r.0, 16, 16) == val as u32,
            bits::same_outside(self.0, r.0, 16, 16),
    {
        proof {
            bits::lemma_low_masks();
        }
        Self(bits::set_field(self.0, 16, 16, val as u32))
    }

    /// Get interrupt period.
    pub fn interrupt_period(self) -> (r: u16)
        ensures
            r as u32 == bits::field(self.0, 16, 16),
    {
        proof {
            bits::lemma_low_masks();
        }
        bits::get_field(self.0, 16, 16) as u16
    }
}

/// Dead time configuration register.
#[derive(Clone, Copy, Debug, PartialEq, Eq, Hash, Default, Structural)]
pub struct DeadTime(pub u32);

impl DeadTime {
    /// Set dead time for channel.
    pub fn set_channel(self, idx: usize, val: u8) -> (r: Self)
        requires
            idx < 4,
        ensures
            r.0 == bits::with_field(self.0, (idx * 8) as u32, 8, val as u32),
            bits::field(r.0, (idx * 8) as u32, 8) == val as u32,
            bits::same_outside(self.0, r.0, (idx * 8) as u32, 8),
    {
        proof {
            bits::lemma_low_masks();
        }
        Self(bits::set_field(self.0, (idx * 8) as u32, 8, val as u32))
    }

    /// Get dead time for channel.
    pub fn channel(self, idx: usize) -> (r: u8)
        requires
            idx < 4,
        ensures
            r as u32 == bits::field(self.0, (idx * 8) as u32, 8),
    {
        proof {
            bits::lemma_low_masks();
        }
        bits::get_field(self.0, (idx * 8) as u32, 8) as u8
    }
}

/// Threshold register.
#[derive(Clone, Copy, Debug, PartialEq, Eq, Hash, Default, Structural)]
pub struct Threshold(pub u32);

impl Threshold {
    /// Set low threshold.
    pub fn set_low(self, val: u16) -> (r: Self)
        ensures
            r.0 == bits::with_field(self.0, 0, 16, val as u32),
            bits::field(r.0, 0, 16) == val as u32,
            bits::same_outside(self.0, r.0, 0, 16),
    {
        proof {
            bits::lemma_low_masks();
        }
        Self(bits::set_field(self.0, 0, 16, val as u32))
    }

    /// Get low threshold.
    pub fn low(self) -> (r: u16)
        ensures
            r as u32 == bits::field(self.0, 0, 16),
    {
        proof {
            bits::lemma_low_masks();
        }
        bits::get_field(self.0, 0, 16) as u16
    }

    /// Set high threshold.
    pub fn set_high(self, val: u16) -> (r: Self)
        ensures
            r.0 == bits::with_field(self.0, 16, 16, val as u32),
            bits::field(r.0, 16, 16) == val as u32,
            bits::same_outside(self.0, r.0, 16, 16),
    {
        proof {
            bits::lemma_low_masks();
        }
        Self(bits::set_field(self.0, 16, 16, val as u32))
    }

    /// Get high threshold.
    pub fn high(self) -> (r: u16)
        ensures
            r as u32 == bits::field(self.0, 16, 16),
    {
        proof {
            bits::lemma_low_masks();
        }
        bits::get_field(self.0, 16, 16) as u16
    }
}

/// Interrupt state register.
#[derive(Clone, Copy, Debug, PartialEq, Eq, Hash, Default, Structural)]
pub struct InterruptState(pub u32);

impl InterruptState {
    /// Check if has interrupt.
    pub fn has_interrupt(self, val: Interrupt) -> (r: bool)
        ensures
            r == (bits::field(self.0, val.value(), 1) == 1),
    {
        bits::test_bit(self.0, val.to_u32())
    }
}

/// Interrupt mask register.
#[derive(Clone, Copy, Debug, PartialEq, Eq, Hash, Default, Structural)]
pub struct InterruptMask(pub u32);

impl InterruptMask {
    /// Set interrupt mask.
    pub fn mask_interrupt(self, val: Interrupt) -> (r: Self)
        ensures
            r.0 == bits::with_field(self.0, val.value(), 1, 1),
            bits::field(r.0, val.value(), 1) == 1,
            bits::same_outside(self.0, r.0, val.value(), 1),
    {
        Self(bits::set_bit(self.0, val.to_u32()))
    }

    /// Clear interrupt mask.
    pub fn unmask_interrupt(self, val: Interrupt) -> (r: Self)
        ensures
            r.0 == bits::with_field(self.0, val.value(), 1, 0),
            bits::field(r.0, val.value(), 1) == 0,
            bits::same_outside(self.0, r.0, val.value(), 1),
    {
        Self(bits::clear_bit(self.0, val.to_u32()))
    }

    /// Check if interrupt is masked.
    pub fn is_interrupt_masked(self, val: Interrupt) -> (r: bool)
        ensures
            r == (bits::field(self.0, val.value(), 1) == 1),
    {
        bits::test_bit(self.0, val.to_u32())
    }
}

/// Interrupt clear register.
#[derive(Clone, Copy, Debug, PartialEq, Eq, Hash, Default, Structural)]
pub struct InterruptClear(pub u32);

impl InterruptClear {
    /// Clear interrupt.
    pub fn clear_interrupt(self, val: Interrupt) -> (r: Self)
        ensures
            r.0 == bits::with_field(self.0, val.value(), 1, 1),
            bits::field(r.0, val.value(), 1) == 1,
            bits::same_outside(self.0, r.0, val.value(), 1),
    {
        Self(bits::set_bit(self.0, val.to_u32()))
    }
}

/// Interrupt enable register.
#[derive(Clone, Copy, Debug, PartialEq, Eq, Hash, Default, Structural)]
pub struct InterruptEnable(pub u32);

impl InterruptEnable {
    /// Enable interrupt.
    pub fn enable_interrupt(self, val: Interrupt) -> (r: Self)
        ensures
            r.0 == bits::with_field(self.0, val.value(), 1, 1),
            bits::field(r.0, val.value(), 1) == 1,
            bits::same_outside(self.0, r.0, val.value(), 1),
    {
        Self(bits::set_bit(self.0, val.to_u32()))
    }

    /// Disable interrupt.
    pub fn disable_interrupt(self, val: Interrupt) -> (r: Self)
        ensures
            r.0 == bits::with_field(self.0, val.value(), 1, 0),
            bits::field(r.0, val.value(), 1) == 0,
            bits::same_outside(self.0, r.0, val.value(), 1),
    {
        Self(bits::clear_bit(self.0, val.to_u32()))
    }

    /// Check if interrupt is enabled.
    pub fn is_interrupt_enabled(self, val: Interrupt) -> (r: bool)
        ensures
            r == (bits::field(self.0, val.value(), 1) == 1),
    {
        bits::test_bit(self.0, val.to_u32())
    }
}

/// Group configuration of a PWM group clocked from `source` at
/// `frequency`: the clock source, and the divisor that brings the source's
/// frequency `source_freq` down to `frequency`.
///
/// Only the crystal clock can be chosen, and the divisor must be between 1
/// and 65535.
pub fn set_clock(val: GroupConfig, frequency: u32, source: ClockSource, source_freq: u32) -> (r: GroupConfig)
    requires
        source == ClockSource::Xclk,
        frequency != 0,
        1 <= source_freq / frequency <= 65535,
    ensures
        r.0 == bits::with_field(
            bits::with_field(val.0, 30, 2, source.value()),
            0,
            16,
            (source_freq / frequency) as u32,
        ),
{
    let clock_divisor: u32 = source_freq / frequency;
    val.set_clock_source(source).set_clock_divide(clock_divisor as u16)
}

} // verus!
