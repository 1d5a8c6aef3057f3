//! Register-level GPIO for the ATmega2560 and an entropy mixer that turns
//! analog noise or motion-sensor readings into random bytes.

pub mod atmega2560p;
pub mod math;
