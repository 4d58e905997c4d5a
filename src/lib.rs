//! Tiled virtual-scroll rendering for a grid of cells.
//!
//! The grid is cut into horizontal tiles of a fixed number of rows. This
//! crate decides which tiles a viewport shows and where they land on screen,
//! keeps one rendered image per tile in a cache, and describes each tile's
//! drawing as a list of primitive draw commands that a drawing backend replays.

pub mod cache;
pub mod geometry;
pub mod raster;
pub mod state;
