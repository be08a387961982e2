//! Handshake state packet IDs.
use vstd::prelude::*;

verus! {

pub const SERVER_HANDSHAKE: u8 = 0x00;

} // verus!
