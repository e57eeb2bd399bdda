//! Renders one rectangular tile of an escape-time fractal into an RGBA pixel
//! buffer.
//!
//! The number type in which an orbit is computed is left to the caller: the
//! iteration is generic in it, and the tile functions take the per-pixel
//! evaluator as a function value. Every contract is stated over the
//! mathematical function that the evaluator computes.

pub mod calculate;
pub mod tables;
