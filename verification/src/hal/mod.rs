//! Register values and peripheral logic of the Bouffalo hardware abstraction
//! layer.
pub mod dbi;
pub mod dma;
pub mod efuse;
pub mod glb;
pub mod gpip;
pub mod ir;
pub mod lz4d;
