//! Register values of the infrared (IR) transceiver.
use vstd::prelude::*;

use crate::bits;

verus! {

/// Receive configuration register.
#[derive(Clone, Copy, Debug, PartialEq, Eq, Hash, Structural)]
pub struct ReceiveConfig(pub u32);

/// Receive interrupt state and configuration register.
#[derive(Clone, Copy, Debug, PartialEq, Eq, Hash, Structural)]
pub struct ReceiveInterrupt(pub u32);

/// Receive pulse width threshold configuration.
#[derive(Clone, Copy, Debug, PartialEq, Eq, Hash, Structural)]
pub struct ReceiveThreshold(pub u32);

/// First-in first-out queue configuration register 0.
#[derive(Clone, Copy, Debug, PartialEq, Eq, Hash, Structural)]
pub struct FifoConfig0(pub u32);

/// First-in first-out queue configuration register 1.
#[derive(Clone, Copy, Debug, PartialEq, Eq, Hash, Structural)]
pub struct FifoConfig1(pub u32);

} // verus!
