use lazymc::net::{IpAddress, SocketAddress};
use lazymc::proto::client::{Client, ClientState};
use lazymc::proto::frame::{frame_compressed, frame_uncompressed, read_id_data, unframe};
use lazymc::proto::packet::{read_step, RawPacket, ReadStep};
use lazymc::types::{encode_var_int, read_var_int};

#[test]
fn var_int_encodes_small_and_large_values() {
    assert_eq!(encode_var_int(0), vec![0x00]);
    assert_eq!(encode_var_int(1), vec![0x01]);
    assert_eq!(encode_var_int(127), vec![0x7f]);
    assert_eq!(encode_var_int(128), vec![0x80, 0x01]);
    assert_eq!(encode_var_int(300), vec![0xac, 0x02]);
    assert_eq!(encode_var_int(2147483647), vec![0xff, 0xff, 0xff, 0xff, 0x07]);
    assert_eq!(encode_var_int(-1), vec![0xff, 0xff, 0xff, 0xff, 0x0f]);
    assert_eq!(encode_var_int(-2147483648), vec![0x80, 0x80, 0x80, 0x80, 0x08]);
}

#[test]
fn var_int_reads_prefix_and_rejects_bad_input() {
    assert_eq!(read_var_int(&[0xac, 0x02, 0x99]), Ok((2, 300)));
    assert_eq!(read_var_int(&[0x00]), Ok((1, 0)));
    assert_eq!(read_var_int(&[0xff, 0xff, 0xff, 0xff, 0x0f]), Ok((5, -1)));
    assert_eq!(read_var_int(&[]), Err(()));
    assert_eq!(read_var_int(&[0x80]), Err(()));
    assert_eq!(read_var_int(&[0x80, 0x80, 0x80, 0x80, 0x80, 0x01]), Err(()));
}

#[test]
fn var_int_round_trips() {
    for v in [0, 1, -1, 42, 255, 256, 25565, -25565, i32::MAX, i32::MIN] {
        let bytes = encode_var_int(v);
        assert_eq!(read_var_int(&bytes), Ok((bytes.len(), v)));
    }
}

#[test]
fn uncompressed_frame_layout() {
    assert_eq!(frame_uncompressed(0, &[1, 2]), vec![3, 0, 1, 2]);
    assert_eq!(frame_uncompressed(0x26, &[]), vec![1, 0x26]);
}

#[test]
fn uncompressed_frame_round_trips() {
    let frame = frame_uncompressed(5, &[9, 8, 7]);
    assert_eq!(unframe(false, &frame), Ok((5, vec![9, 8, 7])));
    assert_eq!(read_id_data(&[0xac, 0x02, 1]), Ok((300, vec![1])));
    assert_eq!(read_id_data(&[0x80]), Err(()));
}

#[test]
fn compressed_frame_below_threshold_is_stored_plain() {
    let frame = frame_compressed(0, &[1, 2], 256).unwrap();
    assert_eq!(frame, vec![4, 0, 0, 1, 2]);
    assert_eq!(unframe(true, &frame), Ok((0, vec![1, 2])));
}

#[test]
fn compressed_frame_above_threshold_is_zlib_and_round_trips() {
    let data: Vec<u8> = (0..200u32).map(|i| (i % 7) as u8).collect();
    let frame = frame_compressed(3, &data, 64).unwrap();
    // Packet length, then the uncompressed data length 201, then a zlib stream.
    let (n, len) = read_var_int(&frame).unwrap();
    assert_eq!(n + len as usize, frame.len());
    assert_eq!(read_var_int(&frame[n..]), Ok((2, 201)));
    assert_eq!(frame[n + 2], 0x78);
    assert!(frame.len() < 201);
    assert_eq!(unframe(true, &frame), Ok((3, data)));
}

#[test]
fn raw_packet_encode_decode_uncompressed() {
    let client = Client::new(SocketAddress { ip: IpAddress::V4(0x7f000001), port: 1234 });
    let packet = RawPacket::new(1, vec![0xde, 0xad]);
    let bytes = packet.encode(&client).unwrap();
    assert_eq!(bytes, vec![3, 1, 0xde, 0xad]);
    let back = RawPacket::decode(&client, &bytes).unwrap();
    assert_eq!(back.id, 1);
    assert_eq!(back.data, vec![0xde, 0xad]);
}

#[test]
fn raw_packet_encode_decode_compressed() {
    let mut client = Client::dummy();
    client.set_compression(0);
    assert!(client.is_compressed());
    let packet = RawPacket::new(2, vec![5; 40]);
    let bytes = packet.encode(&client).unwrap();
    let back = RawPacket::decode(&client, &bytes).unwrap();
    assert_eq!(back.id, 2);
    assert_eq!(back.data, vec![5; 40]);
}

#[test]
fn read_step_waits_for_whole_frames() {
    assert_eq!(read_step(false, &[]), ReadStep::NeedMore);
    assert_eq!(read_step(false, &[3, 0, 1]), ReadStep::NeedMore);
    assert_eq!(read_step(false, &[3, 0, 1, 2, 9]), ReadStep::Complete(4));
    assert_eq!(read_step(false, &[0xff, 0xff, 0xff, 0xff, 0x0f]), ReadStep::Malformed);
    assert_eq!(read_step(false, &[0x80, 0x80, 0x80, 0x80, 0x80, 0x80]), ReadStep::Malformed);
    // A compressed packet with a negative data length cannot be decoded.
    assert_eq!(read_step(true, &[6, 0xff, 0xff, 0xff, 0xff, 0x0f, 0]), ReadStep::Invalid);
    assert_eq!(read_step(true, &[4, 0, 0, 1, 2]), ReadStep::Complete(5));
}

#[test]
fn client_state_ids() {
    assert_eq!(ClientState::from_id(0), Some(ClientState::Handshake));
    assert_eq!(ClientState::from_id(1), Some(ClientState::Status));
    assert_eq!(ClientState::from_id(2), Some(ClientState::Login));
    assert_eq!(ClientState::from_id(3), None);
    assert_eq!(ClientState::from_id(-1), None);
    assert_eq!(ClientState::Login.to_id(), 2);
    assert_eq!(ClientState::Play.to_id(), -1);
    for s in [ClientState::Handshake, ClientState::Status, ClientState::Login] {
        assert_eq!(ClientState::from_id(s.to_id()), Some(s));
    }
}

#[test]
fn client_state_and_compression() {
    let mut client = Client::dummy();
    assert_eq!(client.state(), ClientState::Handshake);
    assert_eq!(client.compressed(), -1);
    assert!(!client.is_compressed());
    client.set_state(ClientState::Login);
    assert_eq!(client.state(), ClientState::Login);
    client.set_compression(256);
    assert_eq!(client.compressed(), 256);
}

#[test]
fn legacy_raw_packet_frames() {
    let packet = lazymc::protocol::RawPacket::new(0, vec![1, 2]);
    let bytes = packet.encode().unwrap();
    assert_eq!(bytes, vec![3, 0, 1, 2]);
    let mut buf = bytes.clone();
    let back = lazymc::protocol::RawPacket::decode(&mut buf).unwrap();
    assert_eq!(back.id, 0);
    assert_eq!(back.data, vec![1, 2]);
}
