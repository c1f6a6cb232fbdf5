//! A grid scene for a display-list renderer, with the event rules and the
//! frame loop's decisions that drive it.
//!
//! Geometry is exact: every coordinate is a rational number, so the grid's
//! cell sizes are stated and proved without rounding.

pub mod display_list;
pub mod driver;
pub mod events;
pub mod example;
pub mod geometry;
pub mod scene;
