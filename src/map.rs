//! Procedural map generation: configuration, scalar fields, terrain and
//! feature classification, and the generation driver.

pub mod config;
pub mod field;
pub mod generator;
mod random;

pub use config::{MapConfig, MapSize, UNIT};
pub use generator::{FractalLayer, MapGenerator, NoiseSamples, TEMPERATURE_NOISE_SCALE};
