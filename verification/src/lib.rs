//! Hardware abstraction layer for the Kinetis KL25Z family of Cortex-M0+
//! microcontrollers.
//!
//! The core of the crate is the clock tree configurator in [`clocks`]: it
//! derives divider and range settings for the chip's frequency-locked loop
//! from a requested core/bus frequency and reports the frequencies that were
//! actually achieved.  The remaining modules cover the peripherals that
//! consume those clocks (SPI, timers) and power management.

pub mod clocks;
pub mod gpio;
pub mod hw;
pub mod math;
pub mod pm;
pub mod spi;
pub mod time;
pub mod timer;
pub mod watchdog;

