//! Minecraft server files and identities.
pub mod ban;
pub mod favicon;
pub mod server_properties;
pub mod uuid;
pub mod whitelist;

use vstd::prelude::*;

verus! {

/// Minecraft ticks per second.
pub const TICKS_PER_SECOND: u32 = 20;

} // verus!
