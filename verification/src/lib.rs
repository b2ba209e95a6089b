//! Conway's Game of Life on a fixed-size toroidal grid: generation advance
//! under the standard rule, staged manual toggles applied on the next
//! advance, and a textual rendering.

mod bits;
mod rng;

pub mod grid;
pub mod laws;
