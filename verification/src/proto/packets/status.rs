//! Status state packet IDs.
use vstd::prelude::*;

verus! {

pub const CLIENT_STATUS: u8 = 0x00;

pub const CLIENT_PING: u8 = 0x01;

pub const SERVER_STATUS: u8 = 0x00;

pub const SERVER_PING: u8 = 0x01;

} // verus!
