//! Surface lifecycle and presentation synchronisation for a layer-shell client.
//!
//! The crate keeps the bookkeeping of such a client and leaves every protocol
//! request and every GPU call to its caller: each operation takes what the
//! compositor or the device reported, updates the state, and answers with what
//! has to be done next.

pub mod app;
pub mod debugging;
pub mod graphics;
pub mod util;
pub mod wayland;

pub use app::AvyClient;

use vstd::prelude::*;

verus! {

/// The name the engine gives itself towards the graphics driver.
pub const ENGINE_NAME: &'static str = "Avy (Skia)";

/// Major and minor version of the engine.
pub const ENGINE_VERSION: (u32, u32) = (0, 1);

/// Major and minor version of the newest Vulkan API that the engine asks for.
pub const MAX_VK_API_VERSION: (u32, u32) = (1, 3);

} // verus!
