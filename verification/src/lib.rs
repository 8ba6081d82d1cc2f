//! Generic client for LTC681X battery stack monitors.
//!
//! The crate implements the shared protocol engine of the LTC6810, LTC6811,
//! LTC6812 and LTC6813 battery stack monitor ICs: command framing with the
//! 15-bit packet error code, daisy-chain addressing of several devices on one
//! SPI transaction, the two chip-select disciplines used for ADC-ready
//! detection, and the decoding of packed register data into typed voltages
//! and device parameters.
//!
//! Each verified function states in its contract the exact bytes it frames or
//! the exact values it decodes; the SPI bus itself stays behind the small
//! transport traits in [`spi`], which users of the crate implement for their
//! hardware.

pub mod config;
pub mod example;
pub mod ltc6810;
pub mod ltc6811;
pub mod ltc6812;
pub mod ltc6813;
pub mod monitor;
pub mod pec15;
pub mod spi;
