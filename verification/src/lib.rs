//! Marching squares: iso-contour line segments over a scalar field sampled on
//! a regular grid.
//!
//! The scalar field is held in fixed-point: a sample is an `i64` counting
//! thousandths of the real value, and screen coordinates are `i64` counting
//! thousandths of a pixel. The rendering harness converts at the boundary.

pub mod classify;
pub mod grid;
pub mod march;
pub mod segment;
