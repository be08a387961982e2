//! Minecraft protocol packet IDs.
pub mod forge;
pub mod handshake;
pub mod login;
pub mod play;
pub mod status;
