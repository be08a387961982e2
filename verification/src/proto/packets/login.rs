//! Login state packet IDs.
use vstd::prelude::*;

verus! {

pub const CLIENT_DISCONNECT: u8 = 0x00;

pub const CLIENT_LOGIN_SUCCESS: u8 = 0x02;

pub const CLIENT_SET_COMPRESSION: u8 = 0x03;

pub const CLIENT_LOGIN_PLUGIN_REQUEST: u8 = 0x04;

pub const SERVER_LOGIN_START: u8 = 0x00;

pub const SERVER_LOGIN_PLUGIN_RESPONSE: u8 = 0x02;

} // verus!
