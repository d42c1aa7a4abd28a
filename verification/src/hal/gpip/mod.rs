//! General purpose ADC and DAC peripheral (GPIP).
pub mod register;
