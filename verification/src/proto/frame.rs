//! Packet framing: the length prefix, the packet ID and, when a compression threshold is
//! set, the zlib-compressed data section.
use std::io::{Read, Write};

use flate2::read::ZlibDecoder;
use flate2::write::ZlibEncoder;
use flate2::Compression;
use vstd::prelude::*;
use vstd::slice::{slice_subrange, slice_to_vec};

use crate::types::{encode_var_int, lemma_var_int_roundtrip, parse_var_int, read_var_int, var_int_bytes};

verus! {

/// What zlib (flate2, default level) makes of `data`.
pub uninterp spec fn zlib_compressed(data: Seq<u8>) -> Seq<u8>;

/// What zlib (flate2) decompresses `data` to, or `None` if it is no complete zlib stream.
pub uninterp spec fn zlib_decompressed(data: Seq<u8>) -> Option<Seq<u8>>;

/// Packet ID followed by packet data.
pub open spec fn spec_packet_body(id: i32, data: Seq<u8>) -> Seq<u8> {
    var_int_bytes(id) + data
}

/// An uncompressed frame: the body length as VarInt, then the body.
pub open spec fn spec_frame(body: Seq<u8>) -> Seq<u8> {
    var_int_bytes(body.len() as i32) + body
}

/// Packet ID and data of a packet body.
pub open spec fn spec_read_id_data(body: Seq<u8>) -> Option<(i32, Seq<u8>)> {
    match parse_var_int(body) {
        Some((n, id)) => Some((id, body.subrange(n, body.len() as int))),
        None => None,
    }
}

/// The body that the length prefix of `s` selects.
pub open spec fn spec_frame_body(s: Seq<u8>) -> Option<Seq<u8>> {
    match parse_var_int(s) {
        Some((n, len)) => Some(s.subrange(n, n + len)),
        None => None,
    }
}

/// The length prefix of `s` selects bytes that `s` holds.
pub open spec fn frame_fits(s: Seq<u8>) -> bool {
    match parse_var_int(s) {
        Some((n, len)) => 0 <= len && n + len <= s.len(),
        None => true,
    }
}

/// The data length of a compressed body is not negative.
pub open spec fn compressed_body_fits(body: Seq<u8>) -> bool {
    match parse_var_int(body) {
        Some((m, data_len)) => data_len >= 0,
        None => true,
    }
}

/// Packet ID and data of a body in the compressed format: a data length, then either the
/// uncompressed body (data length 0) or the zlib stream of a body of that length.
pub open spec fn spec_read_compressed_body(body: Seq<u8>) -> Option<(i32, Seq<u8>)> {
    match parse_var_int(body) {
        None => None,
        Some((m, data_len)) => {
            let rest = body.subrange(m, body.len() as int);
            if data_len == 0 {
                spec_read_id_data(rest)
            } else {
                match zlib_decompressed(rest) {
                    Some(d) => if d.len() == data_len {
                        spec_read_id_data(d)
                    } else {
                        None
                    },
                    None => None,
                }
            }
        },
    }
}

/// Packet ID and data of a frame, compressed or not.
pub open spec fn spec_unframe(compressed: bool, s: Seq<u8>) -> Option<(i32, Seq<u8>)> {
    match spec_frame_body(s) {
        None => None,
        Some(body) => if compressed {
            spec_read_compressed_body(body)
        } else {
            spec_read_id_data(body)
        },
    }
}

/// Whether reading a frame stays within the bytes at hand: the length prefix fits the
/// buffer and, for the compressed format, the data length is not negative.
pub open spec fn unframe_requires(compressed: bool, s: Seq<u8>) -> bool {
    &&& frame_fits(s)
    &&& compressed ==> match spec_frame_body(s) {
        Some(body) => compressed_body_fits(body),
        None => true,
    }
}

/// Whether a payload of this length is compressed under `threshold`.
pub open spec fn compresses(payload: Seq<u8>, threshold: i32) -> bool {
    (payload.len() as i32) > threshold
}

/// Data length and payload section of a compressed-format body.
pub open spec fn spec_compressed_sections(payload: Seq<u8>, threshold: i32) -> (Seq<u8>, Seq<u8>) {
    if compresses(payload, threshold) {
        (var_int_bytes(payload.len() as i32), zlib_compressed(payload))
    } else {
        (var_int_bytes(0), payload)
    }
}

/// A frame in the compressed format.
pub open spec fn spec_compressed_frame(payload: Seq<u8>, threshold: i32) -> Seq<u8> {
    let (head, tail) = spec_compressed_sections(payload, threshold);
    var_int_bytes((head.len() as i32).wrapping_add(tail.len() as i32)) + head + tail
}

/// Compress `data` with zlib at the default level.
///
/// Calls flate2's `ZlibEncoder` on a `Vec` and `finish`. Claimed: it succeeds, as writing to
/// a `Vec` with a fresh default-level encoder raises no error in flate2's source, and the
/// output is the named zlib stream of `data`, which zlib decompresses back to `data`.
#[verifier::external_body]
fn zlib_compress(data: &[u8]) -> (res: Result<Vec<u8>, ()>)
    ensures
        res is Ok,
        res matches Ok(c) ==> c@ == zlib_compressed(data@) && zlib_decompressed(c@) == Some(
            data@,
        ),
{
    let mut encoder = ZlibEncoder::new(Vec::new(), Compression::default());
    encoder.write_all(data).map_err(|_| ())?;
    encoder.finish().map_err(|_| ())
}

/// Decompress a zlib stream.
///
/// Calls flate2's `ZlibDecoder::read_to_end` on `data`. Claimed: success exactly when the
/// named decompression exists, and then the output is it.
#[verifier::external_body]
fn zlib_decompress(data: &[u8]) -> (res: Result<Vec<u8>, ()>)
    ensures
        res matches Ok(d) ==> zlib_decompressed(data@) == Some(d@),
        res is Err ==> zlib_decompressed(data@) is None,
{
    let mut decompressed = Vec::new();
    ZlibDecoder::new(data).read_to_end(&mut decompressed).map_err(|_| ())?;
    Ok(decompressed)
}

/// Concatenate a VarInt and a byte slice.
fn var_int_then(value: i32, data: &[u8]) -> (res: Vec<u8>)
    ensures
        res@ == var_int_bytes(value) + data@,
{
    let mut out = encode_var_int(value);
    let mut rest = slice_to_vec(data);
    out.append(&mut rest);
    out
}

/// Encode an uncompressed frame of packet `id` with `data`.
pub fn frame_uncompressed(id: i32, data: &[u8]) -> (res: Vec<u8>)
    ensures
        res@ == spec_frame(spec_packet_body(id, data@)),
{
    let body = var_int_then(id, data);
    let len = body.len() as i32;
    var_int_then(len, body.as_slice())
}

/// Encode a frame of packet `id` with `data` in the compressed format.
///
/// The body is compressed if it is longer than `threshold`, else stored with data length 0.
pub fn frame_compressed(id: i32, data: &[u8], threshold: i32) -> (res: Result<Vec<u8>, ()>)
    ensures
        res matches Ok(f) && f@ == spec_compressed_frame(spec_packet_body(id, data@), threshold),
        compresses(spec_packet_body(id, data@), threshold) ==> zlib_decompressed(
            zlib_compressed(spec_packet_body(id, data@)),
        ) == Some(spec_packet_body(id, data@)),
{
    let payload = var_int_then(id, data);
    let data_len = payload.len() as i32;
    let compress = data_len > threshold;
    let mut head = encode_var_int(if compress { data_len } else { 0 });
    let mut tail = if compress {
        zlib_compress(payload.as_slice())?
    } else {
        payload
    };
    let len = (head.len() as i32).wrapping_add(tail.len() as i32);
    let mut packet = encode_var_int(len);
    packet.append(&mut head);
    packet.append(&mut tail);
    Ok(packet)
}

/// Read the packet ID from a body, the remaining bytes being the packet data.
pub fn read_id_data(buf: &[u8]) -> (res: Result<(i32, Vec<u8>), ()>)
    ensures
        match spec_read_id_data(buf@) {
            Some((id, data)) => res matches Ok((rid, rdata)) && rid == id && rdata@ == data,
            None => res is Err,
        },
{
    let (read, id) = read_var_int(buf)?;
    let rest = slice_subrange(buf, read, buf.len());
    Ok((id, slice_to_vec(rest)))
}

/// Read a body in the compressed format.
fn read_compressed_body(body: &[u8]) -> (res: Result<(i32, Vec<u8>), ()>)
    requires
        compressed_body_fits(body@),
    ensures
        match spec_read_compressed_body(body@) {
            Some((id, data)) => res matches Ok((rid, rdata)) && rid == id && rdata@ == data,
            None => res is Err,
        },
{
    let (read, data_len) = read_var_int(body)?;
    let rest = slice_subrange(body, read, body.len());
    if data_len == 0 {
        return read_id_data(rest);
    }
    let decompressed = zlib_decompress(rest)?;
    if decompressed.len() != data_len as usize {
        return Err(());
    }
    read_id_data(decompressed.as_slice())
}

/// Read packet ID and data from a frame, compressed or not.
pub fn unframe(compressed: bool, buf: &[u8]) -> (res: Result<(i32, Vec<u8>), ()>)
    requires
        unframe_requires(compressed, buf@),
    ensures
        match spec_unframe(compressed, buf@) {
            Some((id, data)) => res matches Ok((rid, rdata)) && rid == id && rdata@ == data,
            None => res is Err,
        },
{
    let (read, len) = read_var_int(buf)?;
    let body = slice_subrange(buf, read, read + len as usize);
    if !compressed {
        return read_id_data(body);
    }
    read_compressed_body(body)
}

/// The packet body is read back from its own encoding.
proof fn lemma_read_id_data_roundtrip(id: i32, data: Seq<u8>)
    ensures
        spec_read_id_data(spec_packet_body(id, data)) == Some((id, data)),
{
    lemma_var_int_roundtrip(id, data);
    let body = spec_packet_body(id, data);
    assert(body.subrange(var_int_bytes(id).len() as int, body.len() as int) =~= data);
}

/// Reading an uncompressed frame, followed by any bytes, gives back the packet ID and
/// data it was written from, and stays within the bytes at hand.
pub proof fn lemma_frame_roundtrip(id: i32, data: Seq<u8>, rest: Seq<u8>)
    requires
        spec_packet_body(id, data).len() <= i32::MAX,
    ensures
        unframe_requires(false, spec_frame(spec_packet_body(id, data)) + rest),
        spec_unframe(false, spec_frame(spec_packet_body(id, data)) + rest) == Some((id, data)),
{
    let body = spec_packet_body(id, data);
    let len = body.len() as i32;
    let s = spec_frame(body) + rest;
    lemma_var_int_roundtrip(len, body + rest);
    assert(s =~= var_int_bytes(len) + (body + rest));
    let n = var_int_bytes(len).len() as int;
    assert(s.subrange(n, n + len) =~= body);
    lemma_read_id_data_roundtrip(id, data);
}

/// Reading a compressed-format frame, followed by any bytes, gives back the packet ID and
/// data it was written from, whether the body was compressed or not.
///
/// Holds for every frame that `frame_compressed` returns under a threshold that is not
/// negative, as long as the frame length fits the format.
pub proof fn lemma_compressed_frame_roundtrip(id: i32, data: Seq<u8>, threshold: i32, rest: Seq<u8>)
    requires
        threshold >= 0,
        spec_packet_body(id, data).len() <= i32::MAX,
        compresses(spec_packet_body(id, data), threshold) ==> zlib_decompressed(
            zlib_compressed(spec_packet_body(id, data)),
        ) == Some(spec_packet_body(id, data)),
        spec_compressed_sections(spec_packet_body(id, data), threshold).0.len()
            + spec_compressed_sections(spec_packet_body(id, data), threshold).1.len() <= i32::MAX,
    ensures
        unframe_requires(true, spec_compressed_frame(spec_packet_body(id, data), threshold) + rest),
        spec_unframe(true, spec_compressed_frame(spec_packet_body(id, data), threshold) + rest)
            == Some((id, data)),
{
    let payload = spec_packet_body(id, data);
    let (head, tail) = spec_compressed_sections(payload, threshold);
    let body = head + tail;
    let len = (head.len() as i32).wrapping_add(tail.len() as i32);
    assert(len == body.len());
    let s = spec_compressed_frame(payload, threshold) + rest;
    lemma_var_int_roundtrip(len, body + rest);
    assert(s =~= var_int_bytes(len) + (body + rest));
    let n = var_int_bytes(len).len() as int;
    assert(s.subrange(n, n + len) =~= body);
    let data_len: i32 = if compresses(payload, threshold) {
        payload.len() as i32
    } else {
        0
    };
    lemma_var_int_roundtrip(data_len, tail);
    assert(body.subrange(head.len() as int, body.len() as int) =~= tail);
    lemma_read_id_data_roundtrip(id, data);
}

} // verus!
