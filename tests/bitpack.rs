use ro_client::helper::{decode_pos, read_move_data, read_pos};
use ro_client::input_message::{DecodeError, InputMessage};
use ro_client::move_data::MoveData;
use ro_client::session::ServerAddr;

#[test]
fn position_vector() {
    assert_eq!(decode_pos(0x01, 0x23, 0x45), (4, 0x234, 5));
}

#[test]
fn position_extremes() {
    assert_eq!(decode_pos(0xFF, 0xFF, 0xFF), (1023, 1023, 15));
    assert_eq!(decode_pos(0, 0, 0), (0, 0, 0));
}

#[test]
fn read_pos_consumes_three_bytes() {
    let mut m = InputMessage::new(vec![0x01, 0x23, 0x45, 0x99]);
    assert_eq!(read_pos(&mut m), Ok((4, 0x234, 5)));
    assert_eq!(m.position, 3);
    assert_eq!(read_pos(&mut m), Err(DecodeError::OutOfBounds));
    assert_eq!(m.position, 3);
}

#[test]
fn move_data_unpacks_two_cells() {
    // from (0x123, 0x0AB) to (0x0CD, 0x2EF)
    let mut m = InputMessage::new(vec![0x48, 0xCA, 0xB3, 0x36, 0xEF, 0x88]);
    let mv = read_move_data(&mut m).unwrap();
    assert_eq!(mv, MoveData::new(0x123, 0x0AB, 0x0CD, 0x2EF));
    assert!(m.is_eof());
}

#[test]
fn move_data_needs_six_bytes() {
    let mut m = InputMessage::new(vec![1, 2, 3, 4, 5]);
    assert_eq!(read_move_data(&mut m), Err(DecodeError::OutOfBounds));
}

#[test]
fn server_address_octets() {
    let a = ServerAddr { ip: 0x0100007F, port: 6121 };
    assert_eq!(a.octets(), (127, 0, 0, 1));
}
