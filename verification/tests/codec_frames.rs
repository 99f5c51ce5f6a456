use rpmsg_async_notify::channel::ChannelError;
use rpmsg_async_notify::codec::{decode_payload, encode_payload};
use rpmsg_async_notify::{Payload, PAYLOAD_MAX_SIZE};

#[test]
fn frame_budget_is_the_rpmsg_buffer_minus_the_reserves() {
    // 512-byte rpmsg buffer, 16-byte transport header, 24-byte
    // serialization overhead reserve
    assert_eq!(PAYLOAD_MAX_SIZE, 472);
}

#[test]
fn encode_is_length_prefixed_little_endian() {
    let p = Payload { num: 3, data: vec![7, 8, 9] };
    let frame = encode_payload(&p).unwrap();
    assert_eq!(frame.len(), 19);
    assert_eq!(&frame[0..8], &[3, 0, 0, 0, 0, 0, 0, 0]);
    assert_eq!(&frame[8..16], &[3, 0, 0, 0, 0, 0, 0, 0]);
    assert_eq!(&frame[16..], &[7, 8, 9]);
}

#[test]
fn frame_round_trip() {
    let p = Payload { num: 41, data: vec![1, 2, 3, 4, 5] };
    let frame = encode_payload(&p).unwrap();
    let back = decode_payload(&frame).unwrap();
    assert_eq!(back.num, 41);
    assert_eq!(back.data, vec![1, 2, 3, 4, 5]);
}

#[test]
fn default_payload_round_trip() {
    let p = Payload::new(12);
    assert_eq!(p.num, 12);
    assert_eq!(p.data, vec![0; 5]);
    let frame = encode_payload(&p).unwrap();
    let back = decode_payload(&frame).unwrap();
    assert_eq!(back.num, 12);
    assert_eq!(back.data, vec![0; 5]);
}

#[test]
fn oversized_payload_rejected_on_encode() {
    let p = Payload { num: 1, data: vec![0u8; PAYLOAD_MAX_SIZE - 15] };
    let err = encode_payload(&p).unwrap_err();
    assert_eq!(
        err,
        ChannelError::MessageBufferOverflow {
            capacity: PAYLOAD_MAX_SIZE,
            message_size: PAYLOAD_MAX_SIZE + 1,
        }
    );
    let largest = Payload { num: 1, data: vec![0u8; PAYLOAD_MAX_SIZE - 16] };
    assert_eq!(encode_payload(&largest).unwrap().len(), PAYLOAD_MAX_SIZE);
}

#[test]
fn truncated_frame_fails_to_decode() {
    assert_eq!(decode_payload(&vec![1, 2, 3]).unwrap_err(), ChannelError::DecodeFailed);
    assert_eq!(decode_payload(&Vec::new()).unwrap_err(), ChannelError::DecodeFailed);
}

#[test]
fn length_field_mismatch_fails_to_decode() {
    let p = Payload { num: 1, data: vec![9, 9] };
    let mut frame = encode_payload(&p).unwrap();
    frame.push(0);
    assert_eq!(decode_payload(&frame).unwrap_err(), ChannelError::DecodeFailed);
}
