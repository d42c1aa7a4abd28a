//! Register values of the peripherals of the BL808 system on chip.
pub mod dma;
pub mod glb;
pub mod pwm;
