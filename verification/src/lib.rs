//! A small sequence editor over an ordered list of fruit names: positional
//! insertion and removal by split-and-splice, a shuffled initial salad, and
//! comma-separated rendering of the result.

pub mod editor;
pub mod render;
pub mod salad;
