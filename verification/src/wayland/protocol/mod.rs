//! Values of the protocol extensions the client relies on.

pub mod fractional_scale;
pub mod viewporter;
