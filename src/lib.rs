//! Image transformations over an 8-bit RGB raster: colour inversion,
//! grayscale conversion, brightening, cropping, quarter-turn rotation and an
//! escape-time fractal picture.
//!
//! Pixel work is done by the `image` crate; each call into it is a small
//! trusted wrapper whose contract states the per-sample result.

pub mod raster;
pub mod color;
pub mod geometry;
pub mod fractal;
pub mod laws;
