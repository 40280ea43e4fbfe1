//! A small snow-figure scene drawn on raster and vector surfaces, with
//! pointer-driven annotation: each pointer-down appends exactly one shape.
//!
//! Everything here works on plain values. The host replays the produced raster
//! commands and vector nodes onto real surfaces.

pub mod annotate;
pub mod decimal;
pub mod raster;
pub mod shape;
pub mod vector;
