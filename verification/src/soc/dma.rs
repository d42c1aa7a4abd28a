//! Register values of the direct memory access (DMA) peripheral.
use vstd::prelude::*;

verus! {

/// Peripheral configuration register.
#[derive(Clone, Copy, Debug, PartialEq, Eq, Hash, Structural)]
pub struct GlobalConfig(pub u32);

/// Linked list item descriptor.
#[derive(Clone, Copy, Debug, PartialEq, Eq, Hash, Structural)]
pub struct LliItem {
    /// Source address.
    pub source_address: u32,
    /// Destination address.
    pub destination_address: u32,
    /// Physical address to next linked list item.
    pub linked_list_item: u32,
    /// Linked list item control register.
    pub control: LliControl,
}

/// Control register in linked list item.
#[derive(Clone, Copy, Debug, PartialEq, Eq, Hash, Structural)]
pub struct LliControl(pub u32);

/// Channel configuration register.
#[derive(Clone, Copy, Debug, PartialEq, Eq, Hash, Structural)]
pub struct ChannelConfig(pub u32);

} // verus!
