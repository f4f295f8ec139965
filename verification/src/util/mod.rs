//! Geometry shared between the event side and the rendering side.

pub mod size;
