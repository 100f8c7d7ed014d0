//! Conway's Game of Life on a bounded (non-wrapping) rectangular grid.
//!
//! The crate provides the grid data structure ([`grid::Space`]), the
//! generation-transition engine ([`engine`]), randomized initialization
//! ([`random`]), and proved laws about the transition rule ([`laws`]).

pub mod engine;
pub mod grid;
pub mod laws;
pub mod random;
