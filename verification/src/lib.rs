//! Neapolitan Noise: the logic behind a three-flavor noise generator.

pub mod noise;
pub mod palette;
pub mod audio;
pub mod controls;
