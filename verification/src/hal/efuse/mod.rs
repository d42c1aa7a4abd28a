//! eFuse controller.
pub mod register;
pub mod trim_config;
