//! Deterministic core of a tick-based 2D arena simulation: decimal scalars and
//! vectors, axis-aligned boxes, a uniform-grid spatial index and the snapshot
//! records that they serve.

pub mod physics;
pub mod state;
pub mod util;
