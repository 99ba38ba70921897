use cec_tunnel::frame::decode_data_frame;
use cec_tunnel::frame::encode_data_frame;
use cec_tunnel::frame::CONN_ID_LEN;
use cec_tunnel::protocol::WsMessage;

const ID: &str = "123e4567-e89b-42d3-a456-426614174000";

#[test]
fn conn_id_takes_36_bytes() {
    assert_eq!(CONN_ID_LEN, 36);
    assert_eq!(ID.len(), 36);
}

#[test]
fn frame_is_id_then_payload() {
    let frame = encode_data_frame(ID, b"hello");
    assert_eq!(frame.len(), 41);
    assert_eq!(&frame[..36], ID.as_bytes());
    assert_eq!(&frame[36..], b"hello");
}

#[test]
fn short_id_is_padded_with_zero_bytes() {
    let frame = encode_data_frame("abc", &[9, 8]);
    let mut expected = vec![b'a', b'b', b'c'];
    expected.resize(36, 0);
    expected.extend_from_slice(&[9, 8]);
    assert_eq!(frame, expected);
}

#[test]
fn empty_id_is_all_zero_bytes() {
    let frame = encode_data_frame("", &[1]);
    let mut expected = vec![0u8; 36];
    expected.push(1);
    assert_eq!(frame, expected);
}

#[test]
fn long_id_is_cut_at_36_bytes() {
    let long = "0123456789012345678901234567890123456789";
    let frame = encode_data_frame(long, &[7]);
    assert_eq!(frame.len(), 37);
    assert_eq!(&frame[..36], &long.as_bytes()[..36]);
    assert_eq!(frame[36], 7);
}

#[test]
fn non_ascii_id_is_cut_by_bytes() {
    let id = "ééééééééééééééééééé";
    assert_eq!(id.len(), 38);
    let frame = encode_data_frame(id, &[]);
    assert_eq!(frame, id.as_bytes()[..36].to_vec());
}

#[test]
fn frame_with_empty_payload_has_36_bytes() {
    assert_eq!(encode_data_frame(ID, &[]), ID.as_bytes().to_vec());
}

#[test]
fn binary_round_trip_of_data() {
    let payload = vec![0u8, 1, 2, 255, 254, 10, 13];
    let frame = encode_data_frame(ID, &payload);
    assert_eq!(decode_data_frame(&frame), Some((ID.to_string(), payload)));
}

#[test]
fn binary_round_trip_of_a_large_payload() {
    let mut payload = Vec::new();
    for i in 0..8192u32 {
        payload.push((i % 251) as u8);
    }
    let frame = encode_data_frame(ID, &payload);
    assert_eq!(frame.len(), 36 + 8192);
    assert_eq!(decode_data_frame(&frame), Some((ID.to_string(), payload)));
}

#[test]
fn frame_of_37_bytes_carries_one_byte() {
    let mut frame = ID.as_bytes().to_vec();
    frame.push(0x5a);
    assert_eq!(decode_data_frame(&frame), Some((ID.to_string(), vec![0x5a])));
}

#[test]
fn frame_without_payload_is_dropped() {
    assert_eq!(decode_data_frame(ID.as_bytes()), None);
    assert_eq!(decode_data_frame(&[]), None);
    assert_eq!(decode_data_frame(&[1, 2, 3]), None);
}

#[test]
fn frame_with_non_ascii_id_is_dropped() {
    let mut frame = ID.as_bytes().to_vec();
    frame.push(1);
    for at in [0usize, 17, 35] {
        let mut bad = frame.clone();
        bad[at] = 0x80;
        assert_eq!(decode_data_frame(&bad), None);
        bad[at] = 0xff;
        assert_eq!(decode_data_frame(&bad), None);
    }
    let mut edge = frame.clone();
    edge[35] = 0x7f;
    assert!(decode_data_frame(&edge).is_some());
    let mut payload_only = frame.clone();
    payload_only[36] = 0xff;
    assert_eq!(decode_data_frame(&payload_only), Some((ID.to_string(), vec![0xff])));
}

#[test]
fn padded_id_comes_back_with_its_padding() {
    let frame = encode_data_frame("abc", &[1]);
    let (id, payload) = decode_data_frame(&frame).unwrap();
    let mut expected = String::from("abc");
    for _ in 0..33 {
        expected.push('\0');
    }
    assert_eq!(id, expected);
    assert_eq!(payload, vec![1]);
}

#[test]
fn only_data_travels_in_binary() {
    let data = WsMessage::Data { conn_id: ID.to_string(), data: vec![1, 2, 3] };
    assert_eq!(data.binary_frame(), Some(encode_data_frame(ID, &[1, 2, 3])));
    assert_eq!(WsMessage::Ping { timestamp: 1 }.binary_frame(), None);
    assert_eq!(WsMessage::CloseConnection { conn_id: ID.to_string() }.binary_frame(), None);
}

#[test]
fn binary_frame_stands_for_data() {
    let frame = encode_data_frame(ID, &[4, 5]);
    assert_eq!(
        WsMessage::from_binary_frame(&frame),
        Some(WsMessage::Data { conn_id: ID.to_string(), data: vec![4, 5] })
    );
    assert_eq!(WsMessage::from_binary_frame(&frame[..36]), None);
}
