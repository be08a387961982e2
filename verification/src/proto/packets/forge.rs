//! Forge login packet IDs, carried inside login plugin messages.
use vstd::prelude::*;

verus! {

pub const CLIENT_MOD_LIST: u8 = 1;

pub const CLIENT_SERVER_REGISTRY: u8 = 3;

pub const CLIENT_CONFIG_DATA: u8 = 4;

pub const SERVER_MOD_LIST_REPLY: u8 = 2;

pub const SERVER_ACKNOWLEDGEMENT: u8 = 99;

} // verus!
