//! Scalar and vector algebra, and the spatial index built on it.

pub mod math;
pub mod scalar;
pub mod spatial;
