//! Hardware abstraction for the chip's peripherals.

pub mod port;
pub mod port_laws;
