use ro_client::input_message::{DecodeError, InputMessage};
use ro_client::network_message::{EncodeError, NetworkMessage, MAX_MESSAGE_LEN};

#[test]
fn reads_little_endian_integers() {
    let mut m = InputMessage::new(vec![
        0x01, 0x34, 0x12, 0x78, 0x56, 0x34, 0x12, 0x08, 0x07, 0x06, 0x05, 0x04, 0x03, 0x02, 0x01,
    ]);
    assert_eq!(m.read_u8(), Ok(0x01));
    assert_eq!(m.read_u16(), Ok(0x1234));
    assert_eq!(m.read_u32(), Ok(0x12345678));
    assert_eq!(m.read_u64(), Ok(0x0102030405060708));
    assert!(m.is_eof());
    assert_eq!(m.remaining(), 0);
}

#[test]
fn read_past_end_fails_and_keeps_position() {
    let mut m = InputMessage::new(vec![0xAA, 0xBB, 0xCC]);
    assert_eq!(m.read_u32(), Err(DecodeError::OutOfBounds));
    assert_eq!(m.position, 0);
    assert_eq!(m.read_u16(), Ok(0xBBAA));
    assert_eq!(m.read_u16(), Err(DecodeError::OutOfBounds));
    assert_eq!(m.read_u8(), Ok(0xCC));
    assert_eq!(m.read_u8(), Err(DecodeError::OutOfBounds));
    assert_eq!(m.read_u64(), Err(DecodeError::OutOfBounds));
}

#[test]
fn fixed_width_string_stops_at_first_zero_and_consumes_width() {
    let mut m = InputMessage::new(vec![b'a', b'b', 0, b'z', b'z', 0x07]);
    assert_eq!(m.read_string(Some(5)), Ok("ab".to_string()));
    assert_eq!(m.position, 5);
    assert_eq!(m.read_u8(), Ok(0x07));
}

#[test]
fn fixed_width_string_without_zero_takes_whole_field() {
    let mut m = InputMessage::new(vec![b'm', b'a', b'p', b'1']);
    assert_eq!(m.read_string(Some(4)), Ok("map1".to_string()));
    assert!(m.is_eof());
}

#[test]
fn fixed_width_string_longer_than_payload_fails() {
    let mut m = InputMessage::new(vec![b'a', b'b']);
    assert_eq!(m.read_string(Some(3)), Err(DecodeError::OutOfBounds));
    assert_eq!(m.position, 0);
}

#[test]
fn terminated_string_consumes_terminator() {
    let mut m = InputMessage::new(vec![b'h', b'i', 0, 0x05]);
    assert_eq!(m.read_string(None), Ok("hi".to_string()));
    assert_eq!(m.position, 3);
    assert_eq!(m.read_u8(), Ok(0x05));
}

#[test]
fn terminated_string_without_terminator_fails() {
    let mut m = InputMessage::new(vec![b'h', b'i']);
    assert_eq!(m.read_string(None), Err(DecodeError::Unterminated));
    assert_eq!(m.position, 0);
}

#[test]
fn string_bytes_map_one_to_one_onto_characters() {
    let mut m = InputMessage::new(vec![0x41, 0xE9, 0x7A, 0]);
    assert_eq!(m.read_string(None), Ok("A\u{e9}z".to_string()));
}

#[test]
fn skip_and_raw_bytes() {
    let mut m = InputMessage::new(vec![1, 2, 3, 4, 5]);
    assert_eq!(m.skip_bytes(2), Ok(()));
    assert_eq!(m.read_bytes(2), Ok(vec![3, 4]));
    assert_eq!(m.skip_bytes(2), Err(DecodeError::OutOfBounds));
    assert_eq!(m.position, 4);
    assert!(!m.is_eof());
}

#[test]
fn encoder_writes_little_and_big_endian() {
    let mut m = NetworkMessage::new();
    assert_eq!(m.add(0x0204u16), Ok(()));
    assert_eq!(m.add(0x80000001u32), Ok(()));
    assert_eq!(m.add(0x02u8), Ok(()));
    assert_eq!(m.add_be(0x1234u16), Ok(()));
    assert_eq!(m.add_be(0x01020304u32), Ok(()));
    assert_eq!(m.add(0x0102030405060708u64), Ok(()));
    assert_eq!(m.add_be(0x0102030405060708u64), Ok(()));
    assert_eq!(
        m.as_slice(),
        &[
            0x04, 0x02, 0x01, 0x00, 0x00, 0x80, 0x02, 0x12, 0x34, 0x01, 0x02, 0x03, 0x04, 0x08, 0x07,
            0x06, 0x05, 0x04, 0x03, 0x02, 0x01, 0x01, 0x02, 0x03, 0x04, 0x05, 0x06, 0x07, 0x08
        ]
    );
    assert_eq!(m.length(), 29);
}

#[test]
fn encoder_skip_pads_with_zeros_and_string_is_terminated() {
    let mut m = NetworkMessage::new();
    assert_eq!(m.add_string("ab"), Ok(()));
    assert_eq!(m.skip_bytes(2), Ok(()));
    assert_eq!(m.as_slice(), &[b'a', b'b', 0, 0, 0]);
}

#[test]
fn encoder_refuses_to_overflow() {
    let mut m = NetworkMessage::new();
    assert_eq!(m.skip_bytes(MAX_MESSAGE_LEN - 1), Ok(()));
    assert_eq!(m.add(0x1234u16), Err(EncodeError::Overflow));
    assert_eq!(m.length(), MAX_MESSAGE_LEN - 1);
    assert_eq!(m.add_string("x"), Err(EncodeError::Overflow));
    assert_eq!(m.add(7u8), Ok(()));
    assert_eq!(m.add(7u8), Err(EncodeError::Overflow));
    assert_eq!(m.skip_bytes(1), Err(EncodeError::Overflow));
    assert_eq!(m.length(), MAX_MESSAGE_LEN);
}

#[test]
fn backpatch_rewrites_length_field() {
    let mut m = NetworkMessage::new();
    assert_eq!(m.add(0x00F3u16), Ok(()));
    assert_eq!(m.add(0u16), Ok(()));
    assert_eq!(m.add_string("hello"), Ok(()));
    let total = m.length() as u16;
    assert_eq!(m.patch_u16(2, total), Ok(()));
    assert_eq!(&m.as_slice()[0..4], &[0xF3, 0x00, 10, 0]);
    assert_eq!(m.patch_u16(9, 1), Err(EncodeError::OutOfRange));
}

#[test]
fn fixed_field_round_trip() {
    let mut m = NetworkMessage::new();
    assert_eq!(m.add_fixed_string("test", 24), Ok(()));
    assert_eq!(m.length(), 24);
    let mut d = InputMessage::new(m.as_slice().to_vec());
    assert_eq!(d.read_string(Some(24)), Ok("test".to_string()));
    assert!(d.is_eof());
}

#[test]
fn fixed_field_refuses_string_without_room_for_terminator() {
    let mut m = NetworkMessage::new();
    assert_eq!(m.add_fixed_string("abcd", 4), Err(EncodeError::TooLong));
    assert_eq!(m.add_fixed_string("abcdef", 4), Err(EncodeError::TooLong));
    assert_eq!(m.length(), 0);
    assert_eq!(m.add_fixed_string("abc", 4), Ok(()));
    assert_eq!(m.as_slice(), &[b'a', b'b', b'c', 0]);
}
