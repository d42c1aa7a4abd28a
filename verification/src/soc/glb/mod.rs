//! Global configuration peripherals.
pub mod mm;
