//! Register values of the eFuse controller.
use vstd::prelude::*;

use crate::bits;

verus! {

/// Efuse interface 0 control register.
#[derive(Clone, Copy, Debug, PartialEq, Eq, Hash, Structural)]
pub struct EfuseControl(pub u32);

impl EfuseControl {
    /// Set protect code cycle.
    pub fn set_prot_code_cyc(self, cycle: u8) -> (r: Self)
        ensures
            r.0 == bits::with_field(self.0, 24, 8, cycle as u32),
            bits::field(r.0, 24, 8) == cycle as u32,
            bits::same_outside(self.0, r.0, 24, 8),
    {
        proof {
            bits::lemma_low_masks();
        }
        Self(bits::set_field(self.0, 24, 8, cycle as u32))
    }

    /// Get protect code cycle.
    pub fn prot_code_cyc(self) -> (r: u8)
        ensures
            r as u32 == bits::field(self.0, 24, 8),
    {
        proof {
            bits::lemma_low_masks();
        }
        bits::get_field(self.0, 24, 8) as u8
    }

    /// Set interface 0 interrupt set bit.
    pub fn set_if0_int_set(self, val: u8) -> (r: Self)
        ensures
            r.0 == bits::with_field(self.0, 22, 1, val as u32),
            bits::field(r.0, 22, 1) == (val as u32) & 0x1,
            bits::same_outside(self.0, r.0, 22, 1),
    {
        proof {
            bits::lemma_low_masks();
        }
        Self(bits::set_field(self.0, 22, 1, val as u32))
    }

    /// Get interface 0 interrupt set bit.
    pub fn if0_int_set(self) -> (r: u8)
        ensures
            r as u32 == bits::field(self.0, 22, 1),
    {
        proof {
            bits::lemma_low_masks();
        }
        bits::get_field(self.0, 22, 1) as u8
    }

    /// Set interface 0 interrupt clear bit.
    pub fn set_if0_int_clr(self, val: u8) -> (r: Self)
        ensures
            r.0 == bits::with_field(self.0, 21, 1, val as u32),
            bits::field(r.0, 21, 1) == (val as u32) & 0x1,
            bits::same_outside(self.0, r.0, 21, 1),
    {
        proof {
            bits::lemma_low_masks();
        }
        Self(bits::set_field(self.0, 21, 1, val as u32))
    }

    /// Get interface 0 interrupt clear bit.
    pub fn if0_int_clr(self) -> (r: u8)
        ensures
            r as u32 == bits::field(self.0, 21, 1),
    {
        proof {
            bits::lemma_low_masks();
        }
        bits::get_field(self.0, 21, 1) as u8
    }

    /// Set interface 0 interrupt bit.
    pub fn set_if0_int(self, val: u8) -> (r: Self)
        ensures
            r.0 == bits::with_field(self.0, 20, 1, val as u32),
            bits::field(r.0, 20, 1) == (val as u32) & 0x1,
            bits::same_outside(self.0, r.0, 20, 1),
    {
        proof {
            bits::lemma_low_masks();
        }
        Self(bits::set_field(self.0, 20, 1, val as u32))
    }

    /// Get interface 0 interrupt bit.
    pub fn if0_int(self) -> (r: u8)
        ensures
            r as u32 == bits::field(self.0, 20, 1),
    {
        proof {
            bits::lemma_low_masks();
        }
        bits::get_field(self.0, 20, 1) as u8
    }

    /// Set cycle modify lock bit.
    pub fn set_cyc_modify_lock(self, val: u8) -> (r: Self)
        ensures
            r.0 == bits::with_field(self.0, 19, 1, val as u32),
            bits::field(r.0, 19, 1) == (val as u32) & 0x1,
            bits::same_outside(self.0, r.0, 19, 1),
    {
        proof {
            bits::lemma_low_masks();
        }
        Self(bits::set_field(self.0, 19, 1, val as u32))
    }

    /// Get cycle modify lock bit.
    pub fn cyc_modify_lock(self) -> (r: u8)
        ensures
            r as u32 == bits::field(self.0, 19, 1),
    {
        proof {
            bits::lemma_low_masks();
        }
        bits::get_field(self.0, 19, 1) as u8
    }

    /// Enable automatic read.
    pub fn enable_auto_read(self) -> (r: Self)
        ensures
            r.0 == bits::with_field(self.0, 18, 1, 1),
            bits::field(r.0, 18, 1) == 1,
            bits::same_outside(self.0, r.0, 18, 1),
    {
        Self(bits::set_bit(self.0, 18))
    }

    /// Disable automatic read.
    pub fn disable_auto_read(self) -> (r: Self)
        ensures
            r.0 == bits::with_field(self.0, 18, 1, 0),
            bits::field(r.0, 18, 1) == 0,
            bits::same_outside(self.0, r.0, 18, 1),
    {
        Self(bits::clear_bit(self.0, 18))
    }

    /// Check if automatic read is enabled.
    pub fn is_auto_read_enabled(self) -> (r: bool)
        ensures
            r == (bits::field(self.0, 18, 1) == 1),
    {
        bits::test_bit(self.0, 18)
    }

    /// Enable PCLK force on.
    pub fn enable_pclk_force_on(self) -> (r: Self)
        ensures
            r.0 == bits::with_field(self.0, 17, 1, 1),
            bits::field(r.0, 17, 1) == 1,
            bits::same_outside(self.0, r.0, 17, 1),
    {
        Self(bits::set_bit(self.0, 17))
    }

    /// Disable PCLK force on.
    pub fn disable_pclk_force_on(self) -> (r: Self)
        ensures
            r.0 == bits::with_field(self.0, 17, 1, 0),
            bits::field(r.0, 17, 1) == 0,
            bits::same_outside(self.0, r.0, 17, 1),
    {
        Self(bits::clear_bit(self.0, 17))
    }

    /// Check if PCLK force on is enabled.
    pub fn is_pclk_force_on_enabled(self) -> (r: bool)
        ensures
            r == (bits::field(self.0, 17, 1) == 1),
    {
        bits::test_bit(self.0, 17)
    }

    /// Set clock SAHB data gate bit.
    pub fn set_clk_sahb_data_gate(self, val: u8) -> (r: Self)
        ensures
            r.0 == bits::with_field(self.0, 17, 1, val as u32),
            bits::field(r.0, 17, 1) == (val as u32) & 0x1,
            bits::same_outside(self.0, r.0, 17, 1),
    {
        proof {
            bits::lemma_low_masks();
        }
        Self(bits::set_field(self.0, 17, 1, val as u32))
    }

    /// Get clock SAHB data gate bit.
    pub fn clk_sahb_data_gate(self) -> (r: u8)
        ensures
            r as u32 == bits::field(self.0, 17, 1),
    {
        proof {
            bits::lemma_low_masks();
        }
        bits::get_field(self.0, 17, 1) as u8
    }

    /// Set POR_DIG bit.
    pub fn set_por_dig(self, val: u8) -> (r: Self)
        ensures
            r.0 == bits::with_field(self.0, 16, 1, val as u32),
            bits::field(r.0, 16, 1) == (val as u32) & 0x1,
            bits::same_outside(self.0, r.0, 16, 1),
    {
        proof {
            bits::lemma_low_masks();
        }
        Self(bits::set_field(self.0, 16, 1, val as u32))
    }

    /// Get POR_DIG bit.
    pub fn por_dig(self) -> (r: u8)
        ensures
            r as u32 == bits::field(self.0, 16, 1),
    {
        proof {
            bits::lemma_low_masks();
        }
        bits::get_field(self.0, 16, 1) as u8
    }

    /// Set protect code control bit.
    pub fn set_prot_code_ctrl(self, val: u8) -> (r: Self)
        ensures
            r.0 == bits::with_field(self.0, 8, 8, val as u32),
            bits::field(r.0, 8, 8) == val as u32,
            bits::same_outside(self.0, r.0, 8, 8),
    {
        proof {
            bits::lemma_low_masks();
        }
        Self(bits::set_field(self.0, 8, 8, val as u32))
    }

    /// Get protect code control bit.
    pub fn prot_code_ctrl(self) -> (r: u8)
        ensures
            r as u32 == bits::field(self.0, 8, 8),
    {
        proof {
            bits::lemma_low_masks();
        }
        bits::get_field(self.0, 8, 8) as u8
    }

    /// Set clock SAHB data select bit.
    pub fn set_clk_sahb_data_sel(self, val: u8) -> (r: Self)
        ensures
            r.0 == bits::with_field(self.0, 7, 1, val as u32),
            bits::field(r.0, 7, 1) == (val as u32) & 0x1,
            bits::same_outside(self.0, r.0, 7, 1),
    {
        proof {
            bits::lemma_low_masks();
        }
        Self(bits::set_field(self.0, 7, 1, val as u32))
    }

    /// Get clock SAHB data select bit.
    pub fn clk_sahb_data_sel(self) -> (r: u8)
        ensures
            r as u32 == bits::field(self.0, 7, 1),
    {
        proof {
            bits::lemma_low_masks();
        }
        bits::get_field(self.0, 7, 1) as u8
    }

    /// Set interface 0 cycle modify bit.
    pub fn set_if0_cyc_modify(self, val: u8) -> (r: Self)
        ensures
            r.0 == bits::with_field(self.0, 6, 1, val as u32),
            bits::field(r.0, 6, 1) == (val as u32) & 0x1,
            bits::same_outside(self.0, r.0, 6, 1),
    {
        proof {
            bits::lemma_low_masks();
        }
        Self(bits::set_field(self.0, 6, 1, val as u32))
    }

    /// Get interface 0 cycle modify bit.
    pub fn if0_cyc_modify(self) -> (r: u8)
        ensures
            r as u32 == bits::field(self.0, 6, 1),
    {
        proof {
            bits::lemma_low_masks();
        }
        bits::get_field(self.0, 6, 1) as u8
    }

    /// Enable interface 0 manually.
    pub fn enable_if0_manually(self) -> (r: Self)
        ensures
            r.0 == bits::with_field(self.0, 5, 1, 1),
            bits::field(r.0, 5, 1) == 1,
            bits::same_outside(self.0, r.0, 5, 1),
    {
        Self(bits::set_bit(self.0, 5))
    }

    /// Disable interface 0 manually.
    pub fn disable_if0_manually(self) -> (r: Self)
        ensures
            r.0 == bits::with_field(self.0, 5, 1, 0),
            bits::field(r.0, 5, 1) == 0,
            bits::same_outside(self.0, r.0, 5, 1),
    {
        Self(bits::clear_bit(self.0, 5))
    }

    /// Check if interface 0 is manually enabled.
    pub fn is_if0_manually_enabled(self) -> (r: bool)
        ensures
            r == (bits::field(self.0, 5, 1) == 1),
    {
        bits::test_bit(self.0, 5)
    }

    /// Set interface 0 trig bit.
    pub fn set_if0_trig(self, val: u8) -> (r: Self)
        ensures
            r.0 == bits::with_field(self.0, 4, 1, val as u32),
            bits::field(r.0, 4, 1) == (val as u32) & 0x1,
            bits::same_outside(self.0, r.0, 4, 1),
    {
        proof {
            bits::lemma_low_masks();
        }
        Self(bits::set_field(self.0, 4, 1, val as u32))
    }

    /// Get interface 0 trig bit.
    pub fn if0_trig(self) -> (r: u8)
        ensures
            r as u32 == bits::field(self.0, 4, 1),
    {
        proof {
            bits::lemma_low_masks();
        }
        bits::get_field(self.0, 4, 1) as u8
    }

    /// Set interface 0 read/write bit.
    pub fn set_if0_rw(self, val: u8) -> (r: Self)
        ensures
            r.0 == bits::with_field(self.0, 3, 1, val as u32),
            bits::field(r.0, 3, 1) == (val as u32) & 0x1,
            bits::same_outside(self.0, r.0, 3, 1),
    {
        proof {
            bits::lemma_low_masks();
        }
        Self(bits::set_field(self.0, 3, 1, val as u32))
    }

    /// Get interface 0 read/write bit.
    pub fn if0_rw(self) -> (r: u8)
        ensures
            r as u32 == bits::field(self.0, 3, 1),
    {
        proof {
            bits::lemma_low_masks();
        }
        bits::get_field(self.0, 3, 1) as u8
    }

    /// Check if efuse is busy.
    pub fn is_efuse_busy(self) -> (r: bool)
        ensures
            r == (bits::field(self.0, 2, 1) == 1),
    {
        bits::test_bit(self.0, 2)
    }

    /// Check if efuse autoload is done.
    pub fn is_efuse_autoload_done(self) -> (r: bool)
        ensures
            r == (bits::field(self.0, 1, 1) == 1),
    {
        bits::test_bit(self.0, 1)
    }

    /// Check if efuse autoload p1 is done.
    pub fn is_efuse_autoload_p1_done(self) -> (r: bool)
        ensures
            r == (bits::field(self.0, 0, 1) == 1),
    {
        bits::test_bit(self.0, 0)
    }
}

/// Efuse interface 0 cycle config0 register.
#[derive(Clone, Copy, Debug, PartialEq, Eq, Hash, Structural)]
pub struct EfuseCycleConfig0(pub u32);

/// Efuse interface 0 cycle config1 register.
#[derive(Clone, Copy, Debug, PartialEq, Eq, Hash, Structural)]
pub struct EfuseCycleConfig1(pub u32);

impl EfuseCycleConfig1 {
    /// Set cycle PS_CS_H bit.
    pub fn set_cyc_ps_cs_h(self, val: u8) -> (r: Self)
        ensures
            r.0 == bits::with_field(self.0, 26, 6, val as u32),
            bits::field(r.0, 26, 6) == (val as u32) & 0x3f,
            bits::same_outside(self.0, r.0, 26, 6),
    {
        proof {
            bits::lemma_low_masks();
        }
        Self(bits::set_field(self.0, 26, 6, val as u32))
    }

    /// Get cycle PS_CS_H bit.
    pub fn cyc_ps_cs_h(self) -> (r: u8)
        ensures
            r as u32 == bits::field(self.0, 26, 6),
    {
        proof {
            bits::lemma_low_masks();
        }
        bits::get_field(self.0, 26, 6) as u8
    }

    /// Set cycle PS_CS bit.
    pub fn set_cyc_cs(self, val: u8) -> (r: Self)
        ensures
            r.0 == bits::with_field(self.0, 20, 6, val as u32),
            bits::field(r.0, 20, 6) == (val as u32) & 0x3f,
            bits::same_outside(self.0, r.0, 20, 6),
    {
        proof {
            bits::lemma_low_masks();
        }
        Self(bits::set_field(self.0, 20, 6, val as u32))
    }

    /// Get cycle PS_CS bit.
    pub fn cyc_cs(self) -> (r: u8)
        ensures
            r as u32 == bits::field(self.0, 20, 6),
    {
        proof {
            bits::lemma_low_masks();
        }
        bits::get_field(self.0, 20, 6) as u8
    }

    /// Set cycle write/read address.
    pub fn set_cyc_wr_addr(self, val: u8) -> (r: Self)
        ensures
            r.0 == bits::with_field(self.0, 14, 6, val as u32),
            bits::field(r.0, 14, 6) == (val as u32) & 0x3f,
            bits::same_outside(self.0, r.0, 14, 6),
    {
        proof {
            bits::lemma_low_masks();
        }
        Self(bits::set_field(self.0, 14, 6, val as u32))
    }

    /// Get cycle write/read address.
    pub fn cyc_wr_addr(self) -> (r: u8)
        ensures
            r as u32 == bits::field(self.0, 14, 6),
    {
        proof {
            bits::lemma_low_masks();
        }
        bits::get_field(self.0, 14, 6) as u8
    }

    /// Set cycle PP bit.
    pub fn set_cyc_pp(self, val: u8) -> (r: Self)
        ensures
            r.0 == bits::with_field(self.0, 6, 8, val as u32),
            bits::field(r.0, 6, 8) == val as u32,
            bits::same_outside(self.0, r.0, 6, 8),
    {
        proof {
            bits::lemma_low_masks();
        }
        Self(bits::set_field(self.0, 6, 8, val as u32))
    }

    /// Get cycle PP bit.
    pub fn cyc_pp(self) -> (r: u8)
        ensures
            r as u32 == bits::field(self.0, 6, 8),
    {
        proof {
            bits::lemma_low_masks();
        }
        bits::get_field(self.0, 6, 8) as u8
    }

    /// Set cycle PI bit.
    pub fn set_cyc_pi(self, val: u8) -> (r: Self)
        ensures
            r.0 == bits::with_field(self.0, 0, 6, val as u32),
            bits::field(r.0, 0, 6) == (val as u32) & 0x3f,
            bits::same_outside(self.0, r.0, 0, 6),
    {
        proof {
            bits::lemma_low_masks();
        }
        Self(bits::set_field(self.0, 0, 6, val as u32))
    }

    /// Get cycle PI bit.
    pub fn cyc_pi(self) -> (r: u8)
        ensures
            r as u32 == bits::field(self.0, 0, 6),
    {
        proof {
            bits::lemma_low_masks();
        }
        bits::get_field(self.0, 0, 6) as u8
    }
}

/// Efuse interface 0 manual config register.
#[derive(Clone, Copy, Debug, PartialEq, Eq, Hash, Structural)]
pub struct EfuseIf0ManualConfig(pub u32);

impl EfuseIf0ManualConfig {
    /// Set protect code manually.
    pub fn set_prot_code_manually(self, val: u8) -> (r: Self)
        ensures
            r.0 == bits::with_field(self.0, 24, 8, val as u32),
            bits::field(r.0, 24, 8) == val as u32,
            bits::same_outside(self.0, r.0, 24, 8),
    {
        proof {
            bits::lemma_low_masks();
        }
        Self(bits::set_field(self.0, 24, 8, val as u32))
    }

    /// Get protect code manually.
    pub fn prot_code_manually(self) -> (r: u8)
        ensures
            r as u32 == bits::field(self.0, 24, 8),
    {
        proof {
            bits::lemma_low_masks();
        }
        bits::get_field(self.0, 24, 8) as u8
    }

    /// Set interface 0 Q bit.
    pub fn set_if0_q(self, val: u8) -> (r: Self)
        ensures
            r.0 == bits::with_field(self.0, 16, 8, val as u32),
            bits::field(r.0, 16, 8) == val as u32,
            bits::same_outside(self.0, r.0, 16, 8),
    {
        proof {
            bits::lemma_low_masks();
        }
        Self(bits::set_field(self.0, 16, 8, val as u32))
    }

    /// Get interface 0 Q bit.
    pub fn if0_q(self) -> (r: u8)
        ensures
            r as u32 == bits::field(self.0, 16, 8),
    {
        proof {
            bits::lemma_low_masks();
        }
        bits::get_field(self.0, 16, 8) as u8
    }

    /// Set CSB bit.
    pub fn set_csb(self, val: u8) -> (r: Self)
        ensures
            r.0 == bits::with_field(self.0, 15, 1, val as u32),
            bits::field(r.0, 15, 1) == (val as u32) & 0x1,
            bits::same_outside(self.0, r.0, 15, 1),
    {
        proof {
            bits::lemma_low_masks();
        }
        Self(bits::set_field(self.0, 15, 1, val as u32))
    }

    /// Get CSB bit.
    pub fn csb(self) -> (r: u8)
        ensures
            r as u32 == bits::field(self.0, 15, 1),
    {
        proof {
            bits::lemma_low_masks();
        }
        bits::get_field(self.0, 15, 1) as u8
    }

    /// Set LOAD bit.
    pub fn set_load(self, val: u8) -> (r: Self)
        ensures
            r.0 == bits::with_field(self.0, 14, 1, val as u32),
            bits::field(r.0, 14, 1) == (val as u32) & 0x1,
            bits::same_outside(self.0, r.0, 14, 1),
    {
        proof {
            bits::lemma_low_masks();
        }
        Self(bits::set_field(self.0, 14, 1, val as u32))
    }

    /// Get LOAD bit.
    pub fn load(self) -> (r: u8)
        ensures
            r as u32 == bits::field(self.0, 14, 1),
    {
        proof {
            bits::lemma_low_masks();
        }
        bits::get_field(self.0, 14, 1) as u8
    }

    /// Set PGENB bit.
    pub fn set_pgenb(self, val: u8) -> (r: Self)
        ensures
            r.0 == bits::with_field(self.0, 13, 1, val as u32),
            bits::field(r.0, 13, 1) == (val as u32) & 0x1,
            bits::same_outside(self.0, r.0, 13, 1),
    {
        proof {
            bits::lemma_low_masks();
        }
        Self(bits::set_field(self.0, 13, 1, val as u32))
    }

    /// Get PGENB bit.
    pub fn pgenb(self) -> (r: u8)
        ensures
            r as u32 == bits::field(self.0, 13, 1),
    {
        proof {
            bits::lemma_low_masks();
        }
        bits::get_field(self.0, 13, 1) as u8
    }

    /// Set STROBE bit.
    pub fn set_strobe(self, val: u8) -> (r: Self)
        ensures
            r.0 == bits::with_field(self.0, 12, 1, val as u32),
            bits::field(r.0, 12, 1) == (val as u32) & 0x1,
            bits::same_outside(self.0, r.0, 12, 1),
    {
        proof {
            bits::lemma_low_masks();
        }
        Self(bits::set_field(self.0, 12, 1, val as u32))
    }

    /// Get STROBE bit.
    pub fn strobe(self) -> (r: u8)
        ensures
            r as u32 == bits::field(self.0, 12, 1),
    {
        proof {
            bits::lemma_low_masks();
        }
        bits::get_field(self.0, 12, 1) as u8
    }

    /// Set PS bit.
    pub fn set_ps(self, val: u8) -> (r: Self)
        ensures
            r.0 == bits::with_field(self.0, 11, 1, val as u32),
            bits::field(r.0, 11, 1) == (val as u32) & 0x1,
            bits::same_outside(self.0, r.0, 11, 1),
    {
        proof {
            bits::lemma_low_masks();
        }
        Self(bits::set_field(self.0, 11, 1, val as u32))
    }

    /// Get PS bit.
    pub fn ps(self) -> (r: u8)
        ensures
            r as u32 == bits::field(self.0, 11, 1),
    {
        proof {
            bits::lemma_low_masks();
        }
        bits::get_field(self.0, 11, 1) as u8
    }

    /// Set PD bit.
    pub fn set_pd(self, val: u8) -> (r: Self)
        ensures
            r.0 == bits::with_field(self.0, 10, 1, val as u32),
            bits::field(r.0, 10, 1) == (val as u32) & 0x1,
            bits::same_outside(self.0, r.0, 10, 1),
    {
        proof {
            bits::lemma_low_masks();
        }
        Self(bits::set_field(self.0, 10, 1, val as u32))
    }

    /// Get PD bit.
    pub fn pd(self) -> (r: u8)
        ensures
            r as u32 == bits::field(self.0, 10, 1),
    {
        proof {
            bits::lemma_low_masks();
        }
        bits::get_field(self.0, 10, 1) as u8
    }

    /// Set address field.
    pub fn set_address(self, val: u16) -> (r: Self)
        ensures
            r.0 == bits::with_field(self.0, 0, 10, val as u32),
            bits::field(r.0, 0, 10) == (val as u32) & 0x3ff,
            bits::same_outside(self.0, r.0, 0, 10),
    {
        proof {
            bits::lemma_low_masks();
        }
        Self(bits::set_field(self.0, 0, 10, val as u32))
    }

    /// Get address field.
    pub fn address(self) -> (r: u16)
        ensures
            r as u32 == bits::field(self.0, 0, 10),
    {
        proof {
            bits::lemma_low_masks();
        }
        bits::get_field(self.0, 0, 10) as u16
    }
}

/// Efuse interface 0 config0 register.
#[derive(Clone, Copy, Debug, PartialEq, Eq, Hash, Structural)]
pub struct EfuseConfig0(pub u32);

/// Efuse interface 1 control1 register.
#[derive(Clone, Copy, Debug, PartialEq, Eq, Hash, Structural)]
pub struct EfuseControl1(pub u32);

/// Efuse interface 1 manual config register.
#[derive(Clone, Copy, Debug, PartialEq, Eq, Hash, Structural)]
pub struct EfuseIf1ManualConfig(pub u32);

} // verus!
