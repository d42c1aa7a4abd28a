//! Tooling for Bouffalo Lab boot images: image checking and patching, ELF to
//! binary conversion, and the in-system programming protocol.
pub mod console;
pub mod elf;
pub mod image;
pub mod isp;
pub mod protocol;
pub mod settings;
