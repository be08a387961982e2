//! Raw packets with a one-byte packet ID.
use vstd::prelude::*;

use crate::proto::client::Client;
use crate::proto::frame::{
    compressed_body_fits, compresses, frame_compressed, frame_uncompressed,
    lemma_compressed_frame_roundtrip, lemma_frame_roundtrip, read_id_data, spec_compressed_frame,
    spec_compressed_sections, spec_frame, spec_packet_body, spec_read_id_data, spec_unframe,
    unframe, unframe_requires, zlib_compressed, zlib_decompressed,
};
use crate::types::{parse_var_int, read_var_int};

verus! {

/// Raw Minecraft packet.
///
/// Having a packet ID and a raw data byte array.
#[derive(Debug)]
pub struct RawPacket {
    /// Packet ID.
    pub id: u8,
    /// Packet data.
    pub data: Vec<u8>,
}

impl View for RawPacket {
    type V = (u8, Seq<u8>);

    open spec fn view(&self) -> (u8, Seq<u8>) {
        (self.id, self.data@)
    }
}

/// The packet a decoded ID and data make: the ID is kept to its low byte.
pub open spec fn spec_packet_of(read: Option<(i32, Seq<u8>)>) -> Option<(u8, Seq<u8>)> {
    match read {
        Some((id, data)) => Some((id as u8, data)),
        None => None,
    }
}

impl RawPacket {
    /// Construct new raw packet.
    pub fn new(id: u8, data: Vec<u8>) -> (res: Self)
        ensures
            res.id == id,
            res.data == data,
    {
        Self { id, data }
    }

    /// Read packet ID from buffer, use remaining buffer as data.
    fn read_packet_id_data(buf: &[u8]) -> (res: Result<Self, ()>)
        ensures
            match spec_packet_of(spec_read_id_data(buf@)) {
                Some(p) => res matches Ok(packet) && packet@ == p,
                None => res is Err,
            },
    {
        let (packet_id, data) = read_id_data(buf)?;
        Ok(Self::new(packet_id as u8, data))
    }

    /// Decode packet from raw buffer.
    ///
    /// This decodes both compressed and uncompressed packets based on the client threshold
    /// preference.
    pub fn decode(client: &Client, buf: &[u8]) -> (res: Result<Self, ()>)
        requires
            unframe_requires(client.compression >= 0, buf@),
        ensures
            match spec_packet_of(spec_unframe(client.compression >= 0, buf@)) {
                Some(p) => res matches Ok(packet) && packet@ == p,
                None => res is Err,
            },
    {
        let (packet_id, data) = unframe(client.is_compressed(), buf)?;
        Ok(Self::new(packet_id as u8, data))
    }

    /// Encode packet to raw buffer.
    ///
    /// This compresses packets based on the client threshold preference.
    pub fn encode(&self, client: &Client) -> (res: Result<Vec<u8>, ()>)
        ensures
            client.compression >= 0 ==> {
                let payload = spec_packet_body(self.id as i32, self.data@);
                &&& res matches Ok(f) && f@ == spec_compressed_frame(payload, client.compression)
                &&& compresses(payload, client.compression) ==> zlib_decompressed(
                    zlib_compressed(payload),
                ) == Some(payload)
            },
            client.compression < 0 ==> (res matches Ok(f) && f@ == spec_frame(
                spec_packet_body(self.id as i32, self.data@),
            )),
    {
        let threshold = client.compressed();
        if threshold >= 0 {
            self.encode_compressed(threshold)
        } else {
            self.encode_uncompressed()
        }
    }

    /// Encode compressed packet to raw buffer.
    fn encode_compressed(&self, threshold: i32) -> (res: Result<Vec<u8>, ()>)
        ensures
            ({
                let payload = spec_packet_body(self.id as i32, self.data@);
                &&& res matches Ok(f) && f@ == spec_compressed_frame(payload, threshold)
                &&& compresses(payload, threshold) ==> zlib_decompressed(zlib_compressed(payload))
                    == Some(payload)
            }),
    {
        frame_compressed(self.id as i32, self.data.as_slice(), threshold)
    }

    /// Encode uncompressed packet to raw buffer.
    fn encode_uncompressed(&self) -> (res: Result<Vec<u8>, ()>)
        ensures
            res matches Ok(f) && f@ == spec_frame(spec_packet_body(self.id as i32, self.data@)),
    {
        Ok(frame_uncompressed(self.id as i32, self.data.as_slice()))
    }
}

/// A packet decoded from its own encoding, under the same compression setting and followed
/// by any bytes, is the packet that was encoded.
///
/// `frame` is what `encode` returns: compressed when the threshold is not negative (with
/// the zlib round trip that `encode` then ensures), plain otherwise. Holds when the frame
/// length fits the format.
pub proof fn lemma_raw_packet_roundtrip(
    compression: i32,
    id: u8,
    data: Seq<u8>,
    frame: Seq<u8>,
    rest: Seq<u8>,
)
    requires
        spec_packet_body(id as i32, data).len() <= i32::MAX,
        compression < 0 ==> frame == spec_frame(spec_packet_body(id as i32, data)),
        compression >= 0 ==> {
            let payload = spec_packet_body(id as i32, data);
            &&& frame == spec_compressed_frame(payload, compression)
            &&& compresses(payload, compression) ==> zlib_decompressed(zlib_compressed(payload))
                == Some(payload)
            &&& spec_compressed_sections(payload, compression).0.len() + spec_compressed_sections(
                payload,
                compression,
            ).1.len() <= i32::MAX
        },
    ensures
        unframe_requires(compression >= 0, frame + rest),
        spec_packet_of(spec_unframe(compression >= 0, frame + rest)) == Some((id, data)),
{
    if compression < 0 {
        lemma_frame_roundtrip(id as i32, data, rest);
    } else {
        lemma_compressed_frame_roundtrip(id as i32, data, compression, rest);
    }
    assert((id as i32) as u8 == id) by (bit_vector);
}

/// What to do next when reading a packet from a stream into a buffer.
#[derive(Debug, Clone, Copy, PartialEq, Eq, Structural)]
pub enum ReadStep {
    /// Read more bytes from the stream.
    NeedMore,
    /// The packet length could not be read.
    Malformed,
    /// The packet holds a negative compressed data length, which cannot be decoded.
    Invalid,
    /// The first this many bytes of the buffer are a complete packet.
    Complete(usize),
}

/// The step `read_step` decides on.
pub open spec fn spec_read_step(compressed: bool, buf: Seq<u8>) -> ReadStep {
    if buf.len() < 2 {
        ReadStep::NeedMore
    } else {
        match parse_var_int(buf) {
            None => ReadStep::Malformed,
            Some((n, len)) => if len < 0 {
                ReadStep::Malformed
            } else if buf.len() < n + len {
                ReadStep::NeedMore
            } else if compressed && !compressed_body_fits(buf.subrange(n, n + len)) {
                ReadStep::Invalid
            } else {
                ReadStep::Complete((n + len) as usize)
            },
        }
    }
}

/// Decide how to continue reading a packet from the bytes buffered so far.
///
/// At least two bytes are awaited before the length is read; then the whole packet is
/// awaited. A complete packet can be decoded without leaving its bytes.
pub fn read_step(compressed: bool, buf: &[u8]) -> (res: ReadStep)
    ensures
        res == spec_read_step(compressed, buf@),
        res matches ReadStep::Complete(k) ==> k <= buf@.len() && unframe_requires(
            compressed,
            buf@.subrange(0, k as int),
        ),
{
    if buf.len() < 2 {
        return ReadStep::NeedMore;
    }
    let (consumed, len) = match read_var_int(buf) {
        Ok(result) => result,
        Err(_) => return ReadStep::Malformed,
    };
    if len < 0 {
        return ReadStep::Malformed;
    }
    if buf.len() - consumed < len as usize {
        return ReadStep::NeedMore;
    }
    let end = consumed + len as usize;
    if compressed {
        let body = vstd::slice::slice_subrange(buf, consumed, end);
        match read_var_int(body) {
            Ok((_, data_len)) => {
                if data_len < 0 {
                    return ReadStep::Invalid;
                }
            },
            Err(_) => {},
        }
    }
    proof {
        let frame = buf@.subrange(0, end as int);
        assert(frame.subrange(0, consumed as int) =~= buf@.subrange(0, consumed as int));
        crate::types::lemma_parse_var_int_prefix(buf@, end as int);
        assert(frame.subrange(consumed as int, end as int) =~= buf@.subrange(
            consumed as int,
            end as int,
        ));
    }
    ReadStep::Complete(end)
}

} // verus!
