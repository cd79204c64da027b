//! Value types shared by the whole crate.

pub mod color;
pub mod hsl_to_rgb;
pub mod position;
pub mod ratio;
pub mod round_trip;
pub mod sample_config;
pub mod wheel_mode;
