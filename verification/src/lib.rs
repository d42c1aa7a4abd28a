//! Verified register models, DMA linked-list planning and boot image tooling
//! for Bouffalo Lab chips.
pub mod bitfield;
pub mod bits;
pub mod blri;
pub mod hal;
pub mod soc;
