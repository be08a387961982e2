//! Verified core of lazymc: the Minecraft wire format, server state decisions and
//! configuration logic that the proxy runs on.
pub mod action;
pub mod net;
pub mod proto;
pub mod protocol;
pub mod types;
pub mod mc;
pub mod config;
pub mod status;
pub mod join;
pub mod server;
pub mod proxy;
pub mod router;
pub mod service;
pub mod util;
