//! Register values of the LZ4 decompressor.
use vstd::prelude::*;

use crate::bits;

verus! {

/// Interrupt event.
#[derive(Clone, Copy, Debug, PartialEq, Eq, Hash, Structural)]
pub enum Interrupt {
    /// Decompression finished.
    Done,
    /// Error occurred while decompression.
    Error,
}

impl Interrupt {
    /// Number that stands for this value in a register field.
    pub open spec fn value(self) -> u32 {
        match self {
            Interrupt::Done => 0,
            Interrupt::Error => 1,
        }
    }

    /// Whether `v` is the number of some value.
    pub open spec fn is_value(v: u32) -> bool {
        v <= 1
    }

    /// Number that stands for this value in a register field.
    pub fn to_u32(self) -> (r: u32)
        ensures
            r == self.value(),
            r <= 1,
    {
        match self {
            Interrupt::Done => 0,
            Interrupt::Error => 1,
        }
    }
}

/// Decompressor peripheral configuration.
#[derive(Clone, Copy, Debug, PartialEq, Eq, Hash, Default, Structural)]
pub struct Config(pub u32);

impl Config {
    /// Enable this peripheral.
    pub fn enable(self) -> (r: Self)
        ensures
            r.0 == bits::with_field(self.0, 0, 1, 1),
            bits::field(r.0, 0, 1) == 1,
            bits::same_outside(self.0, r.0, 0, 1),
    {
        Self(bits::set_bit(self.0, 0))
    }

    /// Disable this peripheral.
    pub fn disable(self) -> (r: Self)
        ensures
            r.0 == bits::with_field(self.0, 0, 1, 0),
            bits::field(r.0, 0, 1) == 0,
            bits::same_outside(self.0, r.0, 0, 1),
    {
        Self(bits::clear_bit(self.0, 0))
    }

    /// Check if this peripheral is enabled.
    pub fn is_enabled(self) -> (r: bool)
        ensures
            r == (bits::field(self.0, 0, 1) == 1),
    {
        bits::test_bit(self.0, 0)
    }

    /// Set suspend state of current peripheral.
    pub fn set_suspended(self, val: bool) -> (r: Self)
        ensures
            r.0 == bits::with_field(self.0, 1, 1, if val { 1 } else { 0 }),
            bits::field(r.0, 1, 1) == (if val { 1u32 } else { 0u32 }),
            bits::same_outside(self.0, r.0, 1, 1),
    {
        if val {
            Self(bits::set_bit(self.0, 1))
        } else {
            Self(bits::clear_bit(self.0, 1))
        }
    }

    /// Get suspend state of current peripheral.
    pub fn suspended(self) -> (r: bool)
        ensures
            r == (bits::field(self.0, 1, 1) == 1),
    {
        bits::test_bit(self.0, 1)
    }

    /// Set if the decompressor recognizes LZ4 block checksum.
    pub fn set_has_checksum(self, val: bool) -> (r: Self)
        ensures
            r.0 == bits::with_field(self.0, 4, 1, if val { 1 } else { 0 }),
            bits::field(r.0, 4, 1) == (if val { 1u32 } else { 0u32 }),
            bits::same_outside(self.0, r.0, 4, 1),
    {
        if val {
            Self(bits::set_bit(self.0, 4))
        } else {
            Self(bits::clear_bit(self.0, 4))
        }
    }

    /// Get if the decompressor recognizes LZ4 block checksum.
    pub fn has_checksum(self) -> (r: bool)
        ensures
            r == (bits::field(self.0, 4, 1) == 1),
    {
        bits::test_bit(self.0, 4)
    }
}

/// Writes source address before decompression.
#[derive(Clone, Copy, Debug, PartialEq, Eq, Hash, Default, Structural)]
pub struct SourceStart(pub u32);

impl SourceStart {
    /// Set start address.
    pub fn set_start(self, val: u32) -> (r: Self)
        ensures
            r.0 == bits::or_field(self.0, 0, 26, val as u32),
            val <= 0x3ffffff ==> bits::field(r.0, 0, 26) == val as u32 && bits::same_outside(self.0, r.0, 0, 26),
    {
        proof {
            bits::lemma_low_masks();
        }
        Self(bits::or_into_field(self.0, 0, 26, val as u32))
    }

    /// Get start address.
    pub fn start(self) -> (r: u32)
        ensures
            r == bits::field(self.0, 0, 26),
    {
        proof {
            bits::lemma_low_masks();
        }
        bits::get_field(self.0, 0, 26)
    }

    /// Set base address.
    pub fn set_base(self, val: u32) -> (r: Self)
        ensures
            r.0 == bits::or_field(self.0, 26, 6, val as u32),
            val <= 0x3f ==> bits::field(r.0, 26, 6) == val as u32 && bits::same_outside(self.0, r.0, 26, 6),
    {
        proof {
            bits::lemma_low_masks();
        }
        Self(bits::or_into_field(self.0, 26, 6, val as u32))
    }

    /// Get base address.
    pub fn base(self) -> (r: u32)
        ensures
            r == bits::field(self.0, 26, 6),
    {
        proof {
            bits::lemma_low_masks();
        }
        bits::get_field(self.0, 26, 6)
    }
}

/// Reads the end address of source after decompression.
#[derive(Clone, Copy, Debug, PartialEq, Eq, Hash, Default, Structural)]
pub struct SourceEnd(pub u32);

impl SourceEnd {
    /// Set end address.
    pub fn end(self) -> (r: u32)
        ensures
            r == bits::field(self.0, 0, 26),
    {
        proof {
            bits::lemma_low_masks();
        }
        bits::get_field(self.0, 0, 26)
    }
}

/// Writes destination address before decompression.
#[derive(Clone, Copy, Debug, PartialEq, Eq, Hash, Default, Structural)]
pub struct DestinationStart(pub u32);

impl DestinationStart {
    /// Set start address.
    pub fn set_start(self, val: u32) -> (r: Self)
        ensures
            r.0 == bits::or_field(self.0, 0, 26, val as u32),
            val <= 0x3ffffff ==> bits::field(r.0, 0, 26) == val as u32 && bits::same_outside(self.0, r.0, 0, 26),
    {
        proof {
            bits::lemma_low_masks();
        }
        Self(bits::or_into_field(self.0, 0, 26, val as u32))
    }

    /// Get start address.
    pub fn start(self) -> (r: u32)
        ensures
            r == bits::field(self.0, 0, 26),
    {
        proof {
            bits::lemma_low_masks();
        }
        bits::get_field(self.0, 0, 26)
    }

    /// Set base address.
    pub fn set_base(self, val: u32) -> (r: Self)
        ensures
            r.0 == bits::or_field(self.0, 26, 6, val as u32),
            val <= 0x3f ==> bits::field(r.0, 26, 6) == val as u32 && bits::same_outside(self.0, r.0, 26, 6),
    {
        proof {
            bits::lemma_low_masks();
        }
        Self(bits::or_into_field(self.0, 26, 6, val as u32))
    }

    /// Get base address.
    pub fn base(self) -> (r: u32)
        ensures
            r == bits::field(self.0, 26, 6),
    {
        proof {
            bits::lemma_low_masks();
        }
        bits::get_field(self.0, 26, 6)
    }
}

/// Reads the end address of destination after decompression.
#[derive(Clone, Copy, Debug, PartialEq, Eq, Hash, Default, Structural)]
pub struct DestinationEnd(pub u32);

impl DestinationEnd {
    /// Get the end address.
    pub fn end(self) -> (r: u32)
        ensures
            r == bits::field(self.0, 0, 26),
    {
        proof {
            bits::lemma_low_masks();
        }
        bits::get_field(self.0, 0, 26)
    }
}

/// Interrupt enable register.
#[derive(Clone, Copy, Debug, PartialEq, Eq, Hash, Default, Structural)]
pub struct InterruptEnable(pub u32);

impl InterruptEnable {
    /// Enable interrupt.
    pub fn enable_interrupt(self, val: Interrupt) -> (r: Self)
        ensures
            r.0 == bits::with_field(self.0, val.value(), 1, 1),
            bits::field(r.0, val.value(), 1) == 1,
            bits::same_outside(self.0, r.0, val.value(), 1),
    {
        Self(bits::set_bit(self.0, val.to_u32()))
    }

    /// Disable interrupt.
    pub fn disable_interrupt(self, val: Interrupt) -> (r: Self)
        ensures
            r.0 == bits::with_field(self.0, val.value(), 1, 0),
            bits::field(r.0, val.value(), 1) == 0,
            bits::same_outside(self.0, r.0, val.value(), 1),
    {
        Self(bits::clear_bit(self.0, val.to_u32()))
    }

    /// Check if interrupt is enabled.
    pub fn is_interrupt_enabled(self, val: Interrupt) -> (r: bool)
        ensures
            r == (bits::field(self.0, val.value(), 1) == 1),
    {
        bits::test_bit(self.0, val.to_u32())
    }
}

/// Interrupt state register.
#[derive(Clone, Copy, Debug, PartialEq, Eq, Hash, Default, Structural)]
pub struct InterruptState(pub u32);

impl InterruptState {
    /// Check if has interrupt flag.
    pub fn has_interrupt(self, val: Interrupt) -> (r: bool)
        ensures
            r == (bits::field(self.0, val.value(), 1) == 1),
    {
        bits::test_bit(self.0, val.to_u32())
    }
}

} // verus!
