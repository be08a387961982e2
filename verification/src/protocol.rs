//! Raw packets in the plain (never compressed) format.
use vstd::prelude::*;

use crate::proto::frame::{frame_fits, frame_uncompressed, spec_frame, spec_packet_body, spec_unframe, unframe};

verus! {

/// Raw Minecraft packet.
///
/// Having a packet ID and a raw data byte array.
#[derive(Debug)]
pub struct RawPacket {
    /// Packet ID.
    pub id: i32,
    /// Packet data.
    pub data: Vec<u8>,
}

impl View for RawPacket {
    type V = (i32, Seq<u8>);

    open spec fn view(&self) -> (i32, Seq<u8>) {
        (self.id, self.data@)
    }
}

impl RawPacket {
    /// Construct new raw packet.
    pub fn new(id: i32, data: Vec<u8>) -> (res: Self)
        ensures
            res.id == id,
            res.data == data,
    {
        Self { id, data }
    }

    /// Decode packet from raw buffer: a length, then the packet ID and data.
    pub fn decode(buf: &mut [u8]) -> (res: Result<Self, ()>)
        requires
            frame_fits(old(buf)@),
        ensures
            final(buf)@ == old(buf)@,
            match spec_unframe(false, old(buf)@) {
                Some(p) => res matches Ok(packet) && packet@ == p,
                None => res is Err,
            },
    {
        let (packet_id, data) = unframe(false, buf)?;
        Ok(Self::new(packet_id, data))
    }

    /// Encode packet to raw buffer: a length, then the packet ID and data.
    pub fn encode(&self) -> (res: Result<Vec<u8>, ()>)
        ensures
            res matches Ok(f) && f@ == spec_frame(spec_packet_body(self.id, self.data@)),
    {
        Ok(frame_uncompressed(self.id, self.data.as_slice()))
    }
}

} // verus!
