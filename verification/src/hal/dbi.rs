//! Register values of the display bus interface (DBI).
use vstd::prelude::*;

use crate::bits;

verus! {

/// Function configuration register.
#[derive(Clone, Copy, Debug, PartialEq, Eq, Hash, Structural)]
pub struct Config(pub u32);

impl Config {
    /// Enable master function.
    pub fn enable_master(self) -> (r: Self)
        ensures
            r.0 == bits::with_field(self.0, 0, 1, 1),
            bits::field(r.0, 0, 1) == 1,
            bits::same_outside(self.0, r.0, 0, 1),
    {
        Self(bits::set_bit(self.0, 0))
    }

    /// Disable master function.
    pub fn disable_master(self) -> (r: Self)
        ensures
            r.0 == bits::with_field(self.0, 0, 1, 0),
            bits::field(r.0, 0, 1) == 0,
            bits::same_outside(self.0, r.0, 0, 1),
    {
        Self(bits::clear_bit(self.0, 0))
    }

    /// Check if master function is enabled.
    pub fn is_master_enabled(self) -> (r: bool)
        ensures
            r == (bits::field(self.0, 0, 1) == 1),
    {
        bits::test_bit(self.0, 0)
    }

    /// Set type B.
    pub fn set_type_b(self) -> (r: Self)
        ensures
            r.0 == bits::with_field(self.0, 1, 1, 0),
            bits::field(r.0, 1, 1) == 0,
            bits::same_outside(self.0, r.0, 1, 1),
    {
        Self(bits::clear_bit(self.0, 1))
    }

    /// Set type C.
    pub fn set_type_c(self) -> (r: Self)
        ensures
            r.0 == bits::with_field(self.0, 1, 1, 1),
            bits::field(r.0, 1, 1) == 1,
            bits::same_outside(self.0, r.0, 1, 1),
    {
        Self(bits::set_bit(self.0, 1))
    }

    /// Check if type C is selected.
    pub fn is_type_c(self) -> (r: bool)
        ensures
            r == (bits::field(self.0, 1, 1) == 1),
    {
        bits::test_bit(self.0, 1)
    }

    /// Check if type B is selected.
    pub fn is_type_b(self) -> (r: bool)
        ensures
            r == (bits::field(self.0, 1, 1) == 0),
    {
        !bits::test_bit(self.0, 1)
    }

    /// Enable command.
    pub fn enable_command(self) -> (r: Self)
        ensures
            r.0 == bits::with_field(self.0, 2, 1, 1),
            bits::field(r.0, 2, 1) == 1,
            bits::same_outside(self.0, r.0, 2, 1),
    {
        Self(bits::set_bit(self.0, 2))
    }

    /// Disable command.
    pub fn disable_command(self) -> (r: Self)
        ensures
            r.0 == bits::with_field(self.0, 2, 1, 0),
            bits::field(r.0, 2, 1) == 0,
            bits::same_outside(self.0, r.0, 2, 1),
    {
        Self(bits::clear_bit(self.0, 2))
    }

    /// Check if command is enabled.
    pub fn is_command_enabled(self) -> (r: bool)
        ensures
            r == (bits::field(self.0, 2, 1) == 1),
    {
        bits::test_bit(self.0, 2)
    }

    /// Enable data.
    pub fn enable_data(self) -> (r: Self)
        ensures
            r.0 == bits::with_field(self.0, 3, 1, 1),
            bits::field(r.0, 3, 1) == 1,
            bits::same_outside(self.0, r.0, 3, 1),
    {
        Self(bits::set_bit(self.0, 3))
    }

    /// Disable data.
    pub fn disable_data(self) -> (r: Self)
        ensures
            r.0 == bits::with_field(self.0, 3, 1, 0),
            bits::field(r.0, 3, 1) == 0,
            bits::same_outside(self.0, r.0, 3, 1),
    {
        Self(bits::clear_bit(self.0, 3))
    }

    /// Check if data is enabled.
    pub fn is_data_enabled(self) -> (r: bool)
        ensures
            r == (bits::field(self.0, 3, 1) == 1),
    {
        bits::test_bit(self.0, 3)
    }

    /// Set data phase to read.
    pub fn set_data_read(self) -> (r: Self)
        ensures
            r.0 == bits::with_field(self.0, 4, 1, 1),
            bits::field(r.0, 4, 1) == 1,
            bits::same_outside(self.0, r.0, 4, 1),
    {
        Self(bits::set_bit(self.0, 4))
    }

    /// Set data phase to write.
    pub fn set_data_write(self) -> (r: Self)
        ensures
            r.0 == bits::with_field(self.0, 4, 1, 0),
            bits::field(r.0, 4, 1) == 0,
            bits::same_outside(self.0, r.0, 4, 1),
    {
        Self(bits::clear_bit(self.0, 4))
    }

    /// Check if data phase is read.
    pub fn is_data_read(self) -> (r: bool)
        ensures
            r == (bits::field(self.0, 4, 1) == 1),
    {
        bits::test_bit(self.0, 4)
    }

    /// Check if data phase is write.
    pub fn is_data_write(self) -> (r: bool)
        ensures
            r == (bits::field(self.0, 4, 1) == 0),
    {
        !bits::test_bit(self.0, 4)
    }

    /// Set data type to normal.
    pub fn set_data_normal(self) -> (r: Self)
        ensures
            r.0 == bits::with_field(self.0, 5, 1, 0),
            bits::field(r.0, 5, 1) == 0,
            bits::same_outside(self.0, r.0, 5, 1),
    {
        Self(bits::clear_bit(self.0, 5))
    }

    /// Set data type to pixel.
    pub fn set_data_pixel(self) -> (r: Self)
        ensures
            r.0 == bits::with_field(self.0, 5, 1, 1),
            bits::field(r.0, 5, 1) == 1,
            bits::same_outside(self.0, r.0, 5, 1),
    {
        Self(bits::set_bit(self.0, 5))
    }

    /// Check if data type is normal.
    pub fn is_data_normal(self) -> (r: bool)
        ensures
            r == (bits::field(self.0, 5, 1) == 0),
    {
        !bits::test_bit(self.0, 5)
    }

    /// Check if data type is pixel.
    pub fn is_data_pixel(self) -> (r: bool)
        ensures
            r == (bits::field(self.0, 5, 1) == 1),
    {
        bits::test_bit(self.0, 5)
    }

    /// Set data byte count.
    pub fn set_data_byte_count(self, count: u8) -> (r: Self)
        ensures
            r.0 == bits::or_field(self.0, 6, 2, count as u32),
            count <= 0x3 ==> bits::field(r.0, 6, 2) == count as u32 && bits::same_outside(self.0, r.0, 6, 2),
    {
        proof {
            bits::lemma_low_masks();
        }
        Self(bits::or_into_field(self.0, 6, 2, count as u32))
    }

    /// Get data byte count.
    pub fn data_byte_count(self) -> (r: u8)
        ensures
            r as u32 == bits::field(self.0, 6, 2),
    {
        proof {
            bits::lemma_low_masks();
        }
        bits::get_field(self.0, 6, 2) as u8
    }

    /// Set command.
    pub fn set_command(self, command: u8) -> (r: Self)
        ensures
            r.0 == bits::with_field(self.0, 8, 8, command as u32),
            bits::field(r.0, 8, 8) == command as u32,
            bits::same_outside(self.0, r.0, 8, 8),
    {
        proof {
            bits::lemma_low_masks();
        }
        Self(bits::set_field(self.0, 8, 8, command as u32))
    }

    /// Get command.
    pub fn command(self) -> (r: u8)
        ensures
            r as u32 == bits::field(self.0, 8, 8),
    {
        proof {
            bits::lemma_low_masks();
        }
        bits::get_field(self.0, 8, 8) as u8
    }

    /// Set SCL polarity.
    pub fn set_scl_polarity(self, polarity: bool) -> (r: Self)
        ensures
            r.0 == bits::with_field(self.0, 16, 1, if polarity { 1 } else { 0 }),
            bits::field(r.0, 16, 1) == (if polarity { 1u32 } else { 0u32 }),
            bits::same_outside(self.0, r.0, 16, 1),
    {
        if polarity {
            Self(bits::set_bit(self.0, 16))
        } else {
            Self(bits::clear_bit(self.0, 16))
        }
    }

    /// Get SCL polarity.
    pub fn scl_polarity(self) -> (r: bool)
        ensures
            r == (bits::field(self.0, 16, 1) == 1),
    {
        bits::test_bit(self.0, 16)
    }

    /// Set SCL clock phase inverse.
    pub fn set_scl_phase(self, phase: bool) -> (r: Self)
        ensures
            r.0 == bits::with_field(self.0, 17, 1, if phase { 1 } else { 0 }),
            bits::field(r.0, 17, 1) == (if phase { 1u32 } else { 0u32 }),
            bits::same_outside(self.0, r.0, 17, 1),
    {
        if phase {
            Self(bits::set_bit(self.0, 17))
        } else {
            Self(bits::clear_bit(self.0, 17))
        }
    }

    /// Get SCL clock phase inverse.
    pub fn scl_phase(self) -> (r: bool)
        ensures
            r == (bits::field(self.0, 17, 1) == 1),
    {
        bits::test_bit(self.0, 17)
    }

    /// Enable continuous transfer.
    pub fn enable_continuous_transfer(self) -> (r: Self)
        ensures
            r.0 == bits::with_field(self.0, 18, 1, 1),
            bits::field(r.0, 18, 1) == 1,
            bits::same_outside(self.0, r.0, 18, 1),
    {
        Self(bits::set_bit(self.0, 18))
    }

    /// Disable continuous transfer.
    pub fn disable_continuous_transfer(self) -> (r: Self)
        ensures
            r.0 == bits::with_field(self.0, 18, 1, 0),
            bits::field(r.0, 18, 1) == 0,
            bits::same_outside(self.0, r.0, 18, 1),
    {
        Self(bits::clear_bit(self.0, 18))
    }

    /// Check if continuous transfer is enabled.
    pub fn is_continuous_transfer_enabled(self) -> (r: bool)
        ensures
            r == (bits::field(self.0, 18, 1) == 1),
    {
        bits::test_bit(self.0, 18)
    }

    /// Enable dummy cycle.
    pub fn enable_dummy_cycle(self) -> (r: Self)
        ensures
            r.0 == bits::with_field(self.0, 19, 1, 1),
            bits::field(r.0, 19, 1) == 1,
            bits::same_outside(self.0, r.0, 19, 1),
    {
        Self(bits::set_bit(self.0, 19))
    }

    /// Disable dummy cycle.
    pub fn disable_dummy_cycle(self) -> (r: Self)
        ensures
            r.0 == bits::with_field(self.0, 19, 1, 0),
            bits::field(r.0, 19, 1) == 0,
            bits::same_outside(self.0, r.0, 19, 1),
    {
        Self(bits::clear_bit(self.0, 19))
    }

    /// Check if dummy cycle is enabled.
    pub fn is_dummy_cycle_enabled(self) -> (r: bool)
        ensures
            r == (bits::field(self.0, 19, 1) == 1),
    {
        bits::test_bit(self.0, 19)
    }

    /// Set dummy cycle count.
    pub fn set_dummy_cycle_count(self, count: u8) -> (r: Self)
        ensures
            r.0 == bits::or_field(self.0, 20, 4, count as u32),
            count <= 0xf ==> bits::field(r.0, 20, 4) == count as u32 && bits::same_outside(self.0, r.0, 20, 4),
    {
        proof {
            bits::lemma_low_masks();
        }
        Self(bits::or_into_field(self.0, 20, 4, count as u32))
    }

    /// Get dummy cycle count.
    pub fn dummy_cycle_count(self) -> (r: u8)
        ensures
            r as u32 == bits::field(self.0, 20, 4),
    {
        proof {
            bits::lemma_low_masks();
        }
        bits::get_field(self.0, 20, 4) as u8
    }

    /// Set type c 3-wire mode.
    pub fn set_type_c_3_wire_mode(self) -> (r: Self)
        ensures
            r.0 == bits::with_field(self.0, 27, 1, 1),
            bits::field(r.0, 27, 1) == 1,
            bits::same_outside(self.0, r.0, 27, 1),
    {
        Self(bits::set_bit(self.0, 27))
    }

    /// Set type c 4-wire mode.
    pub fn set_type_c_4_wire_mode(self) -> (r: Self)
        ensures
            r.0 == bits::with_field(self.0, 27, 1, 0),
            bits::field(r.0, 27, 1) == 0,
            bits::same_outside(self.0, r.0, 27, 1),
    {
        Self(bits::clear_bit(self.0, 27))
    }

    /// Check if type c 3-wire mode is selected.
    pub fn is_type_c_3_wire_mode(self) -> (r: bool)
        ensures
            r == (bits::field(self.0, 27, 1) == 1),
    {
        bits::test_bit(self.0, 27)
    }

    /// Check if type c 4-wire mode is selected.
    pub fn is_type_c_4_wire_mode(self) -> (r: bool)
        ensures
            r == (bits::field(self.0, 27, 1) == 0),
    {
        !bits::test_bit(self.0, 27)
    }

    /// Enable deglitch.
    pub fn enable_deglitch(self) -> (r: Self)
        ensures
            r.0 == bits::with_field(self.0, 28, 1, 1),
            bits::field(r.0, 28, 1) == 1,
            bits::same_outside(self.0, r.0, 28, 1),
    {
        Self(bits::set_bit(self.0, 28))
    }

    /// Disable deglitch.
    pub fn disable_deglitch(self) -> (r: Self)
        ensures
            r.0 == bits::with_field(self.0, 28, 1, 0),
            bits::field(r.0, 28, 1) == 0,
            bits::same_outside(self.0, r.0, 28, 1),
    {
        Self(bits::clear_bit(self.0, 28))
    }

    /// Check if deglitch is enabled.
    pub fn is_deglitch_enabled(self) -> (r: bool)
        ensures
            r == (bits::field(self.0, 28, 1) == 1),
    {
        bits::test_bit(self.0, 28)
    }

    /// Set deglitch cycle count.
    pub fn set_deglitch_cycle_count(self, count: u8) -> (r: Self)
        ensures
            r.0 == bits::or_field(self.0, 29, 3, count as u32),
            count <= 0x7 ==> bits::field(r.0, 29, 3) == count as u32 && bits::same_outside(self.0, r.0, 29, 3),
    {
        proof {
            bits::lemma_low_masks();
        }
        Self(bits::or_into_field(self.0, 29, 3, count as u32))
    }

    /// Get deglitch cycle count.
    pub fn deglitch_cycle_count(self) -> (r: u8)
        ensures
            r as u32 == bits::field(self.0, 29, 3),
    {
        proof {
            bits::lemma_low_masks();
        }
        bits::get_field(self.0, 29, 3) as u8
    }
}

/// First-in first-out queue configuration 0.
#[derive(Clone, Copy, Debug, PartialEq, Eq, Hash, Structural)]
pub struct FifoConfig0(pub u32);

impl FifoConfig0 {
    /// Enable DMA transmit.
    pub fn enable_dma_transmit(self) -> (r: Self)
        ensures
            r.0 == bits::with_field(self.0, 0, 1, 1),
            bits::field(r.0, 0, 1) == 1,
            bits::same_outside(self.0, r.0, 0, 1),
    {
        Self(bits::set_bit(self.0, 0))
    }

    /// Disable DMA transmit.
    pub fn disable_dma_transmit(self) -> (r: Self)
        ensures
            r.0 == bits::with_field(self.0, 0, 1, 0),
            bits::field(r.0, 0, 1) == 0,
            bits::same_outside(self.0, r.0, 0, 1),
    {
        Self(bits::clear_bit(self.0, 0))
    }

    /// Check if DMA transmit is enabled.
    pub fn is_dma_transmit_enabled(self) -> (r: bool)
        ensures
            r == (bits::field(self.0, 0, 1) == 1),
    {
        bits::test_bit(self.0, 0)
    }

    /// Clear transmit first-in first-out queue.
    pub fn clear_transmit_fifo(self) -> (r: Self)
        ensures
            r.0 == bits::with_field(self.0, 2, 1, 1),
            bits::field(r.0, 2, 1) == 1,
            bits::same_outside(self.0, r.0, 2, 1),
    {
        Self(bits::set_bit(self.0, 2))
    }

    /// Check if transmit first-in first-out queue has overflowed.
    pub fn is_transmit_fifo_overflow(self) -> (r: bool)
        ensures
            r == (bits::field(self.0, 4, 1) == 1),
    {
        bits::test_bit(self.0, 4)
    }

    /// Check if transmit first-in first-out queue has underflowed.
    pub fn is_transmit_fifo_underflow(self) -> (r: bool)
        ensures
            r == (bits::field(self.0, 5, 1) == 1),
    {
        bits::test_bit(self.0, 5)
    }
}

/// First-in first-out queue configuration 1.
#[derive(Clone, Copy, Debug, PartialEq, Eq, Hash, Default, Structural)]
pub struct FifoConfig1(pub u32);

impl FifoConfig1 {
    /// Get number of empty spaces remained in transmit FIFO queue.
    pub fn transmit_available_bytes(self) -> (r: u8)
        ensures
            r as u32 == bits::field(self.0, 0, 4),
    {
        proof {
            bits::lemma_low_masks();
        }
        bits::get_field(self.0, 0, 4) as u8
    }

    /// Set transmit FIFO threshold.
    pub fn set_transmit_threshold(self, val: u8) -> (r: Self)
        ensures
            r.0 == bits::or_field(self.0, 16, 3, val as u32),
            val <= 0x7 ==> bits::field(r.0, 16, 3) == val as u32 && bits::same_outside(self.0, r.0, 16, 3),
    {
        proof {
            bits::lemma_low_masks();
        }
        Self(bits::or_into_field(self.0, 16, 3, val as u32))
    }

    /// Get transmit FIFO threshold.
    pub fn transmit_threshold(self) -> (r: u8)
        ensures
            r as u32 == bits::field(self.0, 16, 3),
    {
        proof {
            bits::lemma_low_masks();
        }
        bits::get_field(self.0, 16, 3) as u8
    }
}

} // verus!
