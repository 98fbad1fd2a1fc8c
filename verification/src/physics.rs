//! Geometric primitives used by the broad phase.

pub mod collision;
