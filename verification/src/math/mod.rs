//! Bit mixing and random number generation.

pub mod mixing_laws;
pub mod random;
