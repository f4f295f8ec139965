//! Compositor-facing state: protocol values and surfaces.

pub mod protocol;
pub mod surface;
