//! Geometry and raster operations for aligning channel images of one slide
//! on a common canvas and for cutting a raster into a pyramid of tiles.

pub mod cli;
pub mod color;
pub mod compositor;
pub mod error;
pub mod geometry;
pub mod naming;
pub mod pyramid;
pub mod raster;
pub mod registration;
