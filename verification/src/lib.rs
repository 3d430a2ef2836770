//! A software rasterizer that draws a rotating cuboid into a small RGB pixel
//! grid, such as a terminal's character cells.
//!
//! The geometry is written once, over any number type that implements
//! [`scalar::Scalar`]. Every function states its result as a formula over the
//! primitive operations of that number type.

pub mod cube;
pub mod exact;
pub mod game;
pub mod laws;
pub mod raster;
pub mod scalar;
pub mod terminal_renderer;
pub mod vector2;
pub mod vector3;
