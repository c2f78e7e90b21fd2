//! The audio unit's four channel families, as raw register storage.

pub mod dmc;
pub mod noise_channel;
pub mod square_channel;
pub mod triangle_channel;
