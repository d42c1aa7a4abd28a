//! Global configurations on BL602 and BL702 series.
use vstd::prelude::*;

use crate::bits;
use super::{Drive, Pull};

verus! {

/// Root clock source.
#[derive(Clone, Copy, Debug, PartialEq, Eq, Hash, Structural)]
pub enum GlbRootClk {
    Rc32M,
    Xtal,
    Pll,
}

impl GlbRootClk {
    /// Number that stands for this value in a register field.
    pub open spec fn value(self) -> u32 {
        match self {
            GlbRootClk::Rc32M => 0,
            GlbRootClk::Xtal => 1,
            GlbRootClk::Pll => 2,
        }
    }

    /// Whether `v` is the number of some value.
    pub open spec fn is_value(v: u32) -> bool {
        v <= 2
    }

    /// Number that stands for this value in a register field.
    pub fn to_u32(self) -> (r: u32)
        ensures
            r == self.value(),
            r <= 2,
    {
        match self {
            GlbRootClk::Rc32M => 0,
            GlbRootClk::Xtal => 1,
            GlbRootClk::Pll => 2,
        }
    }
}

/// Pin alternate function.
#[derive(Clone, Copy, Debug, PartialEq, Eq, Hash, Structural)]
pub enum Function {
    ClkOut,
    BtCoexist,
    Flash,
    I2s,
    Spi,
    I2c,
    Uart,
    Pwm,
    Cam,
    Analog,
    Gpio,
    RfTest,
    Scan,
    E21Jtag,
    Debug,
    ExternalPa,
    UsbTranceiver,
    UsbController,
    EMac,
    Qdec,
    KeyScanIn,
    KeyScanDrive,
    CamMisc,
}

impl Function {
    /// Number that stands for this value in a register field.
    pub open spec fn value(self) -> u32 {
        match self {
            Function::ClkOut => 0,
            Function::BtCoexist => 1,
            Function::Flash => 2,
            Function::I2s => 3,
            Function::Spi => 4,
            Function::I2c => 6,
            Function::Uart => 7,
            Function::Pwm => 8,
            Function::Cam => 9,
            Function::Analog => 10,
            Function::Gpio => 11,
            Function::RfTest => 12,
            Function::Scan => 13,
            Function::E21Jtag => 14,
            Function::Debug => 15,
            Function::ExternalPa => 16,
            Function::UsbTranceiver => 17,
            Function::UsbController => 18,
            Function::EMac => 19,
            Function::Qdec => 20,
            Function::KeyScanIn => 21,
            Function::KeyScanDrive => 22,
            Function::CamMisc => 23,
        }
    }

    /// Whether `v` is the number of some value.
    pub open spec fn is_value(v: u32) -> bool {
        v == 0 || v == 1 || v == 2 || v == 3 || v == 4 || v == 6 || v == 7 || v == 8 || v == 9 || v == 10 || v == 11 || v == 12 || v == 13 || v == 14 || v == 15 || v == 16 || v == 17 || v == 18 || v == 19 || v == 20 || v == 21 || v == 22 || v == 23
    }

    /// Number that stands for this value in a register field.
    pub fn to_u32(self) -> (r: u32)
        ensures
            r == self.value(),
            r <= 23,
    {
        match self {
            Function::ClkOut => 0,
            Function::BtCoexist => 1,
            Function::Flash => 2,
            Function::I2s => 3,
            Function::Spi => 4,
            Function::I2c => 6,
            Function::Uart => 7,
            Function::Pwm => 8,
            Function::Cam => 9,
            Function::Analog => 10,
            Function::Gpio => 11,
            Function::RfTest => 12,
            Function::Scan => 13,
            Function::E21Jtag => 14,
            Function::Debug => 15,
            Function::ExternalPa => 16,
            Function::UsbTranceiver => 17,
            Function::UsbController => 18,
            Function::EMac => 19,
            Function::Qdec => 20,
            Function::KeyScanIn => 21,
            Function::KeyScanDrive => 22,
            Function::CamMisc => 23,
        }
    }
}

/// Pin interrupt mode.
#[derive(Clone, Copy, Debug, PartialEq, Eq, Hash, Structural)]
pub enum InterruptMode {
    SyncFallingEdge,
    SyncRisingEdge,
    SyncLowLevel,
    SyncHighLevel,
    AsyncFallingEdge,
    AsyncRisingEdge,
    AsyncLowLevel,
    AsyncHighLevel,
}

impl InterruptMode {
    /// Number that stands for this value in a register field.
    pub open spec fn value(self) -> u32 {
        match self {
            InterruptMode::SyncFallingEdge => 0,
            InterruptMode::SyncRisingEdge => 1,
            InterruptMode::SyncLowLevel => 2,
            InterruptMode::SyncHighLevel => 3,
            InterruptMode::AsyncFallingEdge => 4,
            InterruptMode::AsyncRisingEdge => 5,
            InterruptMode::AsyncLowLevel => 6,
            InterruptMode::AsyncHighLevel => 7,
        }
    }

    /// Whether `v` is the number of some value.
    pub open spec fn is_value(v: u32) -> bool {
        v <= 7
    }

    /// Number that stands for this value in a register field.
    pub fn to_u32(self) -> (r: u32)
        ensures
            r == self.value(),
            r <= 7,
    {
        match self {
            InterruptMode::SyncFallingEdge => 0,
            InterruptMode::SyncRisingEdge => 1,
            InterruptMode::SyncLowLevel => 2,
            InterruptMode::SyncHighLevel => 3,
            InterruptMode::AsyncFallingEdge => 4,
            InterruptMode::AsyncRisingEdge => 5,
            InterruptMode::AsyncLowLevel => 6,
            InterruptMode::AsyncHighLevel => 7,
        }
    }
}

/// Clock configuration register.
#[derive(Clone, Copy, Debug, PartialEq, Eq, Hash, Default, Structural)]
pub struct ClockConfig0(pub u32);

impl ClockConfig0 {
    /// Enable bclk.
    pub fn enable_bclk(self) -> (r: Self)
        ensures
            r.0 == bits::with_field(self.0, 3, 1, 1),
            bits::field(r.0, 3, 1) == 1,
            bits::same_outside(self.0, r.0, 3, 1),
    {
        Self(bits::set_bit(self.0, 3))
    }

    /// Disable bclk.
    pub fn disable_bclk(self) -> (r: Self)
        ensures
            r.0 == bits::with_field(self.0, 3, 1, 0),
            bits::field(r.0, 3, 1) == 0,
            bits::same_outside(self.0, r.0, 3, 1),
    {
        Self(bits::clear_bit(self.0, 3))
    }

    /// Check if bclk is enabled.
    pub fn is_bclk_enabled(self) -> (r: bool)
        ensures
            r == (bits::field(self.0, 3, 1) == 1),
    {
        bits::test_bit(self.0, 3)
    }

    /// Enable hclk (cpu clock).
    pub fn enable_hclk(self) -> (r: Self)
        ensures
            r.0 == bits::with_field(self.0, 2, 1, 1),
            bits::field(r.0, 2, 1) == 1,
            bits::same_outside(self.0, r.0, 2, 1),
    {
        Self(bits::set_bit(self.0, 2))
    }

    /// Disable hclk (cpu clock).
    pub fn disable_hclk(self) -> (r: Self)
        ensures
            r.0 == bits::with_field(self.0, 2, 1, 0),
            bits::field(r.0, 2, 1) == 0,
            bits::same_outside(self.0, r.0, 2, 1),
    {
        Self(bits::clear_bit(self.0, 2))
    }

    /// Check if hclk (cpu clock) is enabled.
    pub fn is_hclk_enabled(self) -> (r: bool)
        ensures
            r == (bits::field(self.0, 2, 1) == 1),
    {
        bits::test_bit(self.0, 2)
    }

    /// Enable fclk.
    pub fn enable_fclk(self) -> (r: Self)
        ensures
            r.0 == bits::with_field(self.0, 1, 1, 1),
            bits::field(r.0, 1, 1) == 1,
            bits::same_outside(self.0, r.0, 1, 1),
    {
        Self(bits::set_bit(self.0, 1))
    }

    /// Disable fclk.
    pub fn disable_fclk(self) -> (r: Self)
        ensures
            r.0 == bits::with_field(self.0, 1, 1, 0),
            bits::field(r.0, 1, 1) == 0,
            bits::same_outside(self.0, r.0, 1, 1),
    {
        Self(bits::clear_bit(self.0, 1))
    }

    /// Check if fclk is enabled.
    pub fn is_fclk_enabled(self) -> (r: bool)
        ensures
            r == (bits::field(self.0, 1, 1) == 1),
    {
        bits::test_bit(self.0, 1)
    }

    /// Enable pll.
    pub fn enable_pll(self) -> (r: Self)
        ensures
            r.0 == bits::with_field(self.0, 0, 1, 1),
            bits::field(r.0, 0, 1) == 1,
            bits::same_outside(self.0, r.0, 0, 1),
    {
        Self(bits::set_bit(self.0, 0))
    }

    /// Disable pll.
    pub fn disable_pll(self) -> (r: Self)
        ensures
            r.0 == bits::with_field(self.0, 0, 1, 0),
            bits::field(r.0, 0, 1) == 0,
            bits::same_outside(self.0, r.0, 0, 1),
    {
        Self(bits::clear_bit(self.0, 0))
    }

    /// Check if pll is enabled.
    pub fn is_pll_enabled(self) -> (r: bool)
        ensures
            r == (bits::field(self.0, 0, 1) == 1),
    {
        bits::test_bit(self.0, 0)
    }

    /// Get bclk divider.
    pub fn bclk_div(self) -> (r: u8)
        ensures
            r as u32 == bits::field(self.0, 16, 8),
    {
        proof {
            bits::lemma_low_masks();
        }
        bits::get_field(self.0, 16, 8) as u8
    }

    /// Set bclk divider.
    pub fn set_bclk_div(self, val: u8) -> (r: Self)
        ensures
            r.0 == bits::with_field(self.0, 16, 8, val as u32),
            bits::field(r.0, 16, 8) == val as u32,
            bits::same_outside(self.0, r.0, 16, 8),
    {
        proof {
            bits::lemma_low_masks();
        }
        Self(bits::set_field(self.0, 16, 8, val as u32))
    }

    /// Get hclk (cpu clock) divider.
    pub fn hclk_div(self) -> (r: u8)
        ensures
            r as u32 == bits::field(self.0, 8, 8),
    {
        proof {
            bits::lemma_low_masks();
        }
        bits::get_field(self.0, 8, 8) as u8
    }

    /// Set hclk (cpu clock) divider.
    pub fn set_hclk_div(self, val: u8) -> (r: Self)
        ensures
            r.0 == bits::with_field(self.0, 8, 8, val as u32),
            bits::field(r.0, 8, 8) == val as u32,
            bits::same_outside(self.0, r.0, 8, 8),
    {
        proof {
            bits::lemma_low_masks();
        }
        Self(bits::set_field(self.0, 8, 8, val as u32))
    }

    /// Get root clock source in hbn mode.
    pub fn hbn_root_clk_sel(self) -> (r: GlbRootClk)
        ensures
            GlbRootClk::is_value(bits::field(self.0, 6, 2)) ==> r.value() == bits::field(self.0, 6, 2),
            bits::field(self.0, 6, 2) == 3 ==> r == GlbRootClk::Pll,
    {
        proof {
            bits::lemma_low_masks();
        }
        match bits::get_field(self.0, 6, 2) {
            0 => GlbRootClk::Rc32M,
            1 => GlbRootClk::Xtal,
            2 => GlbRootClk::Pll,
            3 => GlbRootClk::Pll,
            _ => GlbRootClk::Pll,
        }
    }

    /// Set root clock source in hbn mode.
    pub fn set_hbn_root_clk_sel(self, val: GlbRootClk) -> (r: Self)
        ensures
            r.0 == bits::with_field(self.0, 6, 2, val.value()),
            bits::field(r.0, 6, 2) == val.value(),
            bits::same_outside(self.0, r.0, 6, 2),
    {
        proof {
            bits::lemma_low_masks();
        }
        Self(bits::set_field(self.0, 6, 2, val.to_u32()))
    }
}

/// Generic Purpose Input/Output Configuration register.
#[derive(Clone, Copy, Debug, PartialEq, Eq, Hash, Default, Structural)]
pub struct GpioConfig(pub u32);

impl GpioConfig {
    /// Enable input function of current pin.
    pub fn enable_input(self, idx: usize) -> (r: Self)
        requires
            idx < 2,
        ensures
            r.0 == bits::with_field(self.0, (idx * 16) as u32, 1, 1),
            bits::field(r.0, (idx * 16) as u32, 1) == 1,
            bits::same_outside(self.0, r.0, (idx * 16) as u32, 1),
    {
        Self(bits::set_bit(self.0, (idx * 16) as u32))
    }

    /// Disable input function of current pin.
    pub fn disable_input(self, idx: usize) -> (r: Self)
        requires
            idx < 2,
        ensures
            r.0 == bits::with_field(self.0, (idx * 16) as u32, 1, 0),
            bits::field(r.0, (idx * 16) as u32, 1) == 0,
            bits::same_outside(self.0, r.0, (idx * 16) as u32, 1),
    {
        Self(bits::clear_bit(self.0, (idx * 16) as u32))
    }

    /// Check if input function of current pin is enabled.
    pub fn is_input_enabled(self, idx: usize) -> (r: bool)
        requires
            idx < 2,
        ensures
            r == (bits::field(self.0, (idx * 16) as u32, 1) == 1),
    {
        bits::test_bit(self.0, (idx * 16) as u32)
    }

    /// Enable Schmitt trigger function of current pin.
    pub fn enable_schmitt(self, idx: usize) -> (r: Self)
        requires
            idx < 2,
        ensures
            r.0 == bits::with_field(self.0, (1 + idx * 16) as u32, 1, 1),
            bits::field(r.0, (1 + idx * 16) as u32, 1) == 1,
            bits::same_outside(self.0, r.0, (1 + idx * 16) as u32, 1),
    {
        Self(bits::set_bit(self.0, (1 + idx * 16) as u32))
    }

    /// Disable Schmitt trigger function of current pin.
    pub fn disable_schmitt(self, idx: usize) -> (r: Self)
        requires
            idx < 2,
        ensures
            r.0 == bits::with_field(self.0, (1 + idx * 16) as u32, 1, 0),
            bits::field(r.0, (1 + idx * 16) as u32, 1) == 0,
            bits::same_outside(self.0, r.0, (1 + idx * 16) as u32, 1),
    {
        Self(bits::clear_bit(self.0, (1 + idx * 16) as u32))
    }

    /// Check if Schmitt trigger function of current pin is enabled.
    pub fn is_schmitt_enabled(self, idx: usize) -> (r: bool)
        requires
            idx < 2,
        ensures
            r == (bits::field(self.0, (1 + idx * 16) as u32, 1) == 1),
    {
        bits::test_bit(self.0, (1 + idx * 16) as u32)
    }

    /// Get drive strength of current pin.
    pub fn drive(self, idx: usize) -> (r: Drive)
        requires
            idx < 2,
        ensures
            r.value() == bits::field(self.0, (2 + idx * 16) as u32, 2),
    {
        proof {
            bits::lemma_low_masks();
        }
        match bits::get_field(self.0, (2 + idx * 16) as u32, 2) {
            0 => Drive::Drive0,
            1 => Drive::Drive1,
            2 => Drive::Drive2,
            3 => Drive::Drive3,
            _ => Drive::Drive3,
        }
    }

    /// Set drive strength of current pin.
    pub fn set_drive(self, idx: usize, val: Drive) -> (r: Self)
        requires
            idx < 2,
        ensures
            r.0 == bits::with_field(self.0, (2 + idx * 16) as u32, 2, val.value()),
            bits::field(r.0, (2 + idx * 16) as u32, 2) == val.value(),
            bits::same_outside(self.0, r.0, (2 + idx * 16) as u32, 2),
    {
        proof {
            bits::lemma_low_masks();
        }
        Self(bits::set_field(self.0, (2 + idx * 16) as u32, 2, val.to_u32()))
    }

    /// Get pull direction of current pin.
    pub fn pull(self, idx: usize) -> (r: Pull)
        requires
            idx < 2,
            Pull::is_value(bits::field(self.0, (4 + idx * 16) as u32, 2)),
        ensures
            r.value() == bits::field(self.0, (4 + idx * 16) as u32, 2),
    {
        proof {
            bits::lemma_low_masks();
        }
        match bits::get_field(self.0, (4 + idx * 16) as u32, 2) {
            0 => Pull::NoPull,
            1 => Pull::Up,
            2 => Pull::Down,
            _ => Pull::Down,
        }
    }

    /// Set pull direction of current pin.
    pub fn set_pull(self, idx: usize, val: Pull) -> (r: Self)
        requires
            idx < 2,
        ensures
            r.0 == bits::with_field(self.0, (4 + idx * 16) as u32, 2, val.value()),
            bits::field(r.0, (4 + idx * 16) as u32, 2) == val.value(),
            bits::same_outside(self.0, r.0, (4 + idx * 16) as u32, 2),
    {
        proof {
            bits::lemma_low_masks();
        }
        Self(bits::set_field(self.0, (4 + idx * 16) as u32, 2, val.to_u32()))
    }

    /// Set function of current pin.
    pub fn set_function(self, idx: usize, val: Function) -> (r: Self)
        requires
            idx < 2,
        ensures
            r.0 == bits::with_field(self.0, (8 + idx * 16) as u32, 5, val.value()),
            bits::field(r.0, (8 + idx * 16) as u32, 5) == val.value(),
            bits::same_outside(self.0, r.0, (8 + idx * 16) as u32, 5),
    {
        proof {
            bits::lemma_low_masks();
        }
        Self(bits::set_field(self.0, (8 + idx * 16) as u32, 5, val.to_u32()))
    }

    /// Get function of current pin.
    pub fn function(self, idx: usize) -> (r: Function)
        requires
            idx < 2,
            Function::is_value(bits::field(self.0, (8 + idx * 16) as u32, 5)),
        ensures
            r.value() == bits::field(self.0, (8 + idx * 16) as u32, 5),
    {
        proof {
            bits::lemma_low_masks();
        }
        match bits::get_field(self.0, (8 + idx * 16) as u32, 5) {
            0 => Function::ClkOut,
            1 => Function::BtCoexist,
            2 => Function::Flash,
            3 => Function::I2s,
            4 => Function::Spi,
            6 => Function::I2c,
            7 => Function::Uart,
            8 => Function::Pwm,
            9 => Function::Cam,
            10 => Function::Analog,
            11 => Function::Gpio,
            12 => Function::RfTest,
            13 => Function::Scan,
            14 => Function::E21Jtag,
            15 => Function::Debug,
            16 => Function::ExternalPa,
            17 => Function::UsbTranceiver,
            18 => Function::UsbController,
            19 => Function::EMac,
            20 => Function::Qdec,
            21 => Function::KeyScanIn,
            22 => Function::KeyScanDrive,
            23 => Function::CamMisc,
            _ => Function::CamMisc,
        }
    }
}

/// Generic Purpose Input/Output interrupt mode register.
#[derive(Clone, Copy, Debug, PartialEq, Eq, Hash, Default, Structural)]
pub struct GpioInterruptMode(pub u32);

impl GpioInterruptMode {
    /// Set interrupt mode of current pin.
    ///
    /// Pin `idx` owns the three bits from bit `3 * idx`. For pin 10 the
    /// field runs past the top of the word, and only its two low bits are
    /// written.
    pub fn set_interrupt_mode(self, idx: usize, val: InterruptMode) -> (r: Self)
        requires
            idx <= 10,
        ensures
            r.0 == bits::or_field(self.0, (idx * 3) as u32, 3, val.value()),
            idx < 10 ==> bits::field(r.0, (idx * 3) as u32, 3) == val.value()
                && bits::same_outside(self.0, r.0, (idx * 3) as u32, 3),
    {
        proof {
            bits::lemma_low_masks();
        }
        let s: u32 = (idx * 3) as u32;
        if idx < 10 {
            Self(bits::or_into_field(self.0, s, 3, val.to_u32()))
        } else {
            Self((self.0 & !(7u32 << s)) | (val.to_u32() << s))
        }
    }

    /// Get interrupt mode of current pin.
    pub fn interrupt_mode(self, idx: usize) -> (r: InterruptMode)
        requires
            idx <= 10,
        ensures
            r.value() == bits::field(self.0, (idx * 3) as u32, 3),
    {
        proof {
            bits::lemma_low_masks();
        }
        let s: u32 = (idx * 3) as u32;
        let x: u32 = self.0;
        let v: u32 = (x >> s) & 7;
        assert(v <= 7) by (bit_vector)
            requires
                v == (x >> s) & 7,
        ;
        match v {
            0 => InterruptMode::SyncFallingEdge,
            1 => InterruptMode::SyncRisingEdge,
            2 => InterruptMode::SyncLowLevel,
            3 => InterruptMode::SyncHighLevel,
            4 => InterruptMode::AsyncFallingEdge,
            5 => InterruptMode::AsyncRisingEdge,
            6 => InterruptMode::AsyncLowLevel,
            _ => InterruptMode::AsyncHighLevel,
        }
    }
}

} // verus!
