//! The ATmega2560 microcontroller.

pub mod hal;
