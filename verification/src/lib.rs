//! Core of a 2-D density-field quadrature engine.
//!
//! A scalar density field is integrated over an axis-aligned rectangle by
//! midpoint quadrature: the rectangle is divided into a regular grid, the
//! field is sampled at each cell's midpoint, and the samples are summed with
//! cell-area weights. The numeric side of that rule works on IEEE-754
//! double-precision values, which the verifier does not reason about, so it
//! lives with the embedding binary. This crate holds and verifies everything
//! the rule decides before a single sample is taken: how many cells a grid
//! has, which cell each position of the traversal names, that every cell is
//! visited exactly once, and that a degenerate grid contributes an empty sum.
//! It also carries the geometry the engine is phrased over, with coordinates
//! held as raw bit patterns that the verified code never interprets.

pub mod quadrature;
pub mod region;
