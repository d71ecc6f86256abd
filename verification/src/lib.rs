//! Simulation-and-presentation core of a tile-based puzzle game.
//!
//! Entities occupy a three-axis grid position (two spatial axes plus a draw
//! layer), carry visual representations, and are updated once per frame by
//! independent passes. The heart of the crate is the rendering pass: it joins
//! the position and visual stores, groups the result into per-layer,
//! per-asset batches, and emits them in a deterministic order.

pub mod components;
pub mod resources;
pub mod world;
pub mod entities;
pub mod rendering;
pub mod map;
