//! The presentation side: what the graphics backend has to be told to do.

pub mod vulkan;
