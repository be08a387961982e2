//! Minecraft protocol: client state, packets and their framing.
//!
//! Besides its submodules, this module keeps the single-connection client and packet types
//! with a full 32-bit packet ID.
pub mod client;
pub mod frame;
pub mod packet;
pub mod packets;

use vstd::prelude::*;

pub use crate::proto::client::ClientState;
use crate::proto::frame::{
    compresses, frame_compressed, frame_uncompressed, read_id_data, spec_compressed_frame,
    spec_frame, spec_packet_body, spec_read_id_data, spec_unframe, unframe, unframe_requires,
    zlib_compressed, zlib_decompressed,
};

verus! {

/// Default minecraft protocol version name.
///
/// Just something to default to when real server version isn't known or when no hint is
/// specified in the configuration.
pub const PROTO_DEFAULT_VERSION: &'static str = "1.20.3";

/// Default minecraft protocol version.
///
/// Just something to default to when real server version isn't known or when no hint is
/// specified in the configuration.
pub const PROTO_DEFAULT_PROTOCOL: u32 = 765;

/// Compression threshold to use.
pub const COMPRESSION_THRESHOLD: i32 = 256;

/// Default buffer size when reading packets.
pub const BUF_SIZE: usize = 8192;

/// Client state of a single connection.
///
/// Note: this does not keep track of encryption states.
#[derive(Debug)]
pub struct Client {
    /// Current client state.
    pub state: ClientState,
    /// Compression state: the threshold if 0 or positive, disabled if negative.
    pub compression: i32,
}

impl Client {
    /// Get client state.
    pub fn state(&self) -> (res: ClientState)
        ensures
            res == self.state,
    {
        self.state
    }

    /// Set client state.
    pub fn set_state(&mut self, state: ClientState)
        ensures
            final(self).state == state,
            final(self).compression == old(self).compression,
    {
        self.state = state;
    }

    /// Get compression threshold.
    pub fn compressed(&self) -> (res: i32)
        ensures
            res == self.compression,
    {
        self.compression
    }

    /// Whether compression is used.
    pub fn is_compressed(&self) -> (res: bool)
        ensures
            res == (self.compression >= 0),
    {
        self.compressed() >= 0
    }

    /// Set compression value.
    pub fn set_compression(&mut self, threshold: i32)
        ensures
            final(self).compression == threshold,
            final(self).state == old(self).state,
    {
        self.compression = threshold;
    }
}

impl Default for Client {
    fn default() -> (res: Self)
        ensures
            res.state == ClientState::Handshake,
            res.compression == -1,
    {
        Self { state: ClientState::Handshake, compression: -1 }
    }
}

/// Client info, useful during connection handling.
#[derive(Debug)]
pub struct ClientInfo {
    /// Client protocol version.
    pub protocol_version: Option<i32>,
    /// Client username.
    pub username: Option<String>,
}

impl ClientInfo {
    /// Client info that knows nothing yet.
    pub fn empty() -> (res: Self)
        ensures
            res.protocol_version is None,
            res.username is None,
    {
        Self { protocol_version: None, username: None }
    }
}

/// Raw Minecraft packet.
///
/// Having a packet ID and a raw data byte array.
#[derive(Debug)]
pub struct RawPacket {
    /// Packet ID.
    pub id: i32,
    /// Packet data.
    pub data: Vec<u8>,
}

impl View for RawPacket {
    type V = (i32, Seq<u8>);

    open spec fn view(&self) -> (i32, Seq<u8>) {
        (self.id, self.data@)
    }
}

impl RawPacket {
    /// Construct new raw packet.
    pub fn new(id: i32, data: Vec<u8>) -> (res: Self)
        ensures
            res.id == id,
            res.data == data,
    {
        Self { id, data }
    }

    /// Read packet ID from buffer, use remaining buffer as data.
    fn read_packet_id_data(buf: &[u8]) -> (res: Result<Self, ()>)
        ensures
            match spec_read_id_data(buf@) {
                Some(p) => res matches Ok(packet) && packet@ == p,
                None => res is Err,
            },
    {
        let (packet_id, data) = read_id_data(buf)?;
        Ok(Self::new(packet_id, data))
    }

    /// Decode packet from raw buffer.
    ///
    /// This decodes both compressed and uncompressed packets based on the client threshold
    /// preference.
    pub fn decode(client: &Client, buf: &[u8]) -> (res: Result<Self, ()>)
        requires
            unframe_requires(client.compression >= 0, buf@),
        ensures
            match spec_unframe(client.compression >= 0, buf@) {
                Some(p) => res matches Ok(packet) && packet@ == p,
                None => res is Err,
            },
    {
        let (packet_id, data) = unframe(client.is_compressed(), buf)?;
        Ok(Self::new(packet_id, data))
    }

    /// Encode packet to raw buffer.
    ///
    /// This compresses packets based on the client threshold preference.
    pub fn encode(&self, client: &Client) -> (res: Result<Vec<u8>, ()>)
        ensures
            client.compression >= 0 ==> {
                let payload = spec_packet_body(self.id, self.data@);
                &&& res matches Ok(f) && f@ == spec_compressed_frame(payload, client.compression)
                &&& compresses(payload, client.compression) ==> zlib_decompressed(
                    zlib_compressed(payload),
                ) == Some(payload)
            },
            client.compression < 0 ==> (res matches Ok(f) && f@ == spec_frame(
                spec_packet_body(self.id, self.data@),
            )),
    {
        let threshold = client.compressed();
        if threshold >= 0 {
            self.encode_compressed(threshold)
        } else {
            self.encode_uncompressed()
        }
    }

    /// Encode compressed packet to raw buffer.
    fn encode_compressed(&self, threshold: i32) -> (res: Result<Vec<u8>, ()>)
        ensures
            ({
                let payload = spec_packet_body(self.id, self.data@);
                &&& res matches Ok(f) && f@ == spec_compressed_frame(payload, threshold)
                &&& compresses(payload, threshold) ==> zlib_decompressed(zlib_compressed(payload))
                    == Some(payload)
            }),
    {
        frame_compressed(self.id, self.data.as_slice(), threshold)
    }

    /// Encode uncompressed packet to raw buffer.
    fn encode_uncompressed(&self) -> (res: Result<Vec<u8>, ()>)
        ensures
            res matches Ok(f) && f@ == spec_frame(spec_packet_body(self.id, self.data@)),
    {
        Ok(frame_uncompressed(self.id, self.data.as_slice()))
    }
}

} // verus!
