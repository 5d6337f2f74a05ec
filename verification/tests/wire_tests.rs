use ambient_network::wire::{
    decode_handler_id, decode_message_len, encode_handler_id, encode_message_len, frame,
    frame_message, split_datagram, WireError, MAX_MESSAGE_LEN,
};
use bytes::Bytes;

#[test]
fn handler_id_is_big_endian() {
    assert_eq!(encode_handler_id(0x0102_0304), [1, 2, 3, 4]);
    assert_eq!(decode_handler_id(&[1, 2, 3, 4]), Some(0x0102_0304));
    assert_eq!(decode_handler_id(&[0xff, 0xff, 0xff, 0xff, 9]), Some(u32::MAX));
    assert_eq!(decode_handler_id(&[0, 0, 1]), None);
}

#[test]
fn datagram_splits_into_id_and_payload() {
    let datagram = Bytes::from(frame(7, &[10, 20, 30]));
    assert_eq!(&datagram[..], &[0, 0, 0, 7, 10, 20, 30]);
    let (id, payload) = split_datagram(datagram).unwrap();
    assert_eq!(id, 7);
    assert_eq!(&payload[..], &[10, 20, 30]);
    assert_eq!(split_datagram(Bytes::from(vec![1, 2, 3])).unwrap_err(), WireError::Truncated);
    let (id, payload) = split_datagram(Bytes::from(vec![0, 0, 1, 0])).unwrap();
    assert_eq!(id, 256);
    assert!(payload.is_empty());
}

#[test]
fn message_length_leads_the_message() {
    assert_eq!(frame_message(&[7, 8, 9]), Ok(vec![0, 0, 0, 3, 7, 8, 9]));
    assert_eq!(frame_message(&[]), Ok(vec![0, 0, 0, 0]));
    assert_eq!(encode_message_len(0x0102), Ok([0, 0, 1, 2]));
    assert_eq!(decode_message_len(&[0, 0, 1, 2]), Ok(0x0102));
    assert_eq!(decode_message_len(&[0, 0, 1, 2, 99]), Ok(0x0102));
}

#[test]
fn message_length_is_capped() {
    assert_eq!(MAX_MESSAGE_LEN, 1 << 30);
    assert_eq!(encode_message_len(MAX_MESSAGE_LEN), Ok([0x40, 0, 0, 0]));
    assert_eq!(encode_message_len(MAX_MESSAGE_LEN + 1), Err(WireError::TooLong));
    assert_eq!(decode_message_len(&[0x40, 0, 0, 0]), Ok(MAX_MESSAGE_LEN));
    assert_eq!(decode_message_len(&[0x40, 0, 0, 1]), Err(WireError::TooLong));
    assert_eq!(decode_message_len(&[0xff, 0xff, 0xff, 0xff]), Err(WireError::TooLong));
    assert_eq!(decode_message_len(&[0, 0, 1]), Err(WireError::Truncated));
    assert_eq!(decode_message_len(&[]), Err(WireError::Truncated));
}
