//! Global configuration peripheral.
use vstd::prelude::*;

pub mod v1;

verus! {

/// Pin pull direction.
#[derive(Clone, Copy, Debug, PartialEq, Eq, Hash, Structural)]
pub enum Pull {
    /// No internal pulls.
    NoPull,
    /// Internally pulled up.
    Up,
    /// Internally pulled down.
    Down,
}

impl Pull {
    /// Number that stands for this value in a register field.
    pub open spec fn value(self) -> u32 {
        match self {
            Pull::NoPull => 0,
            Pull::Up => 1,
            Pull::Down => 2,
        }
    }

    /// Whether `v` is the number of some value.
    pub open spec fn is_value(v: u32) -> bool {
        v <= 2
    }

    /// Number that stands for this value in a register field.
    pub fn to_u32(self) -> (r: u32)
        ensures
            r == self.value(),
            r <= 2,
    {
        match self {
            Pull::NoPull => 0,
            Pull::Up => 1,
            Pull::Down => 2,
        }
    }
}

/// Pin drive strength.
#[derive(Clone, Copy, Debug, PartialEq, Eq, Hash, Structural)]
pub enum Drive {
    /// Drive strength 0.
    Drive0,
    /// Drive strength 1.
    Drive1,
    /// Drive strength 2.
    Drive2,
    /// Drive strength 3.
    Drive3,
}

impl Drive {
    /// Number that stands for this value in a register field.
    pub open spec fn value(self) -> u32 {
        match self {
            Drive::Drive0 => 0,
            Drive::Drive1 => 1,
            Drive::Drive2 => 2,
            Drive::Drive3 => 3,
        }
    }

    /// Whether `v` is the number of some value.
    pub open spec fn is_value(v: u32) -> bool {
        v <= 3
    }

    /// Number that stands for this value in a register field.
    pub fn to_u32(self) -> (r: u32)
        ensures
            r == self.value(),
            r <= 3,
    {
        match self {
            Drive::Drive0 => 0,
            Drive::Drive1 => 1,
            Drive::Drive2 => 2,
            Drive::Drive3 => 3,
        }
    }
}

} // verus!
