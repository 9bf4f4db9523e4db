use ro_client::connection::{Connection, ConnectionError, Handoff};
use ro_client::framer::FrameError;
use ro_client::session::{PhaseError, ServerAddr, SessionContext};

fn session() -> SessionContext {
    SessionContext { account_id: 7, login_id: 8, login_id_2: 9, gender: 0, char_id: 0 }
}

#[test]
fn login_connection_hands_off_to_char_list() {
    let mut body = Vec::new();
    body.extend(8u32.to_le_bytes());
    body.extend(7u32.to_le_bytes());
    body.extend(9u32.to_le_bytes());
    body.extend(0u32.to_le_bytes());
    body.extend([0u8; 26]);
    body.push(0);
    body.push(0); // empty web token
    body.extend(0x0100007Fu32.to_le_bytes());
    body.extend(6121u16.to_le_bytes());
    body.extend([0u8; 154]);
    let mut packet = vec![0xC4, 0x0A];
    packet.extend(((body.len() + 4) as u16).to_le_bytes());
    packet.extend(body);
    let mut c = Connection::login();
    let (first, second) = packet.split_at(100);
    let o = c.on_read(first).unwrap();
    assert!(o.replies.is_empty());
    assert_eq!(o.handoff, None);
    let o = c.on_read(second).unwrap();
    assert_eq!(
        o.handoff,
        Some(Handoff::ToCharList { server: ServerAddr { ip: 0x0100007F, port: 6121 }, session: session() })
    );
}

#[test]
fn game_connection_answers_weight_limit_in_order() {
    let mut c = Connection::game(session());
    let o = c.on_read(&[0x83, 0x02, 1, 2, 3, 4, 0xDE, 0x0A, 0x32, 0, 0, 0]).unwrap();
    assert_eq!(o.handoff, None);
    assert_eq!(o.replies.len(), 2);
    assert_eq!(o.replies[0].as_slice(), &[0x1D, 0x02, 0, 0, 0, 0]);
    assert_eq!(o.replies[1].as_slice(), &[0x7D, 0x00]);
}

#[test]
fn connection_reports_unknown_opcode() {
    let mut c = Connection::char_list(session());
    assert_eq!(c.on_read(&[0xFF, 0xFF]).err(), Some(ConnectionError::Frame(FrameError::UnknownOpcode(0xFFFF))));
}

#[test]
fn connection_reports_bad_payload() {
    let mut c = Connection::game(session());
    assert_eq!(
        c.on_read(&[0xB0, 0x00, 0x3E, 0x00, 0, 0, 0, 0]).err(),
        Some(ConnectionError::Phase(PhaseError::InvalidStatus(0x3E)))
    );
}

fn map_data_packet() -> Vec<u8> {
    let mut p = vec![0xC5, 0x0A];
    p.extend(150001u32.to_le_bytes());
    let mut name = b"prontera.gat".to_vec();
    name.resize(16, 0);
    p.extend(name);
    p.extend(0x0100007Fu32.to_le_bytes());
    p.extend(5121u16.to_le_bytes());
    p.extend([0u8; 128]);
    p
}

#[test]
fn handoff_survives_unknown_bytes_after_it() {
    let mut bytes = map_data_packet();
    bytes.extend([0xFF, 0xFF, 0x01, 0x02]);
    let mut c = Connection::char_list(session());
    let o = c.on_read(&bytes).unwrap();
    assert_eq!(
        o.handoff,
        Some(Handoff::ToGame {
            server: ServerAddr { ip: 0x0100007F, port: 5121 },
            session: SessionContext { char_id: 150001, ..session() },
        })
    );
    assert!(o.replies.is_empty());
}

#[test]
fn replies_before_handoff_are_kept() {
    // a pin code state, which asks for the character list, then the map data
    let mut bytes = vec![0xB9, 0x08];
    bytes.extend([0u8; 10]);
    bytes.extend(map_data_packet());
    bytes.extend([0xEE, 0xEE]);
    let mut c = Connection::char_list(session());
    let o = c.on_read(&bytes).unwrap();
    assert_eq!(o.replies.len(), 1);
    assert_eq!(o.replies[0].as_slice(), &[0xA1, 0x09]);
    assert!(matches!(o.handoff, Some(Handoff::ToGame { .. })));
}

#[test]
fn one_byte_reads_give_the_same_replies_as_one_read() {
    let bytes = [0x83, 0x02, 1, 2, 3, 4, 0xDE, 0x0A, 0x32, 0, 0, 0, 0xDE, 0x0A, 0x10, 0, 0, 0];
    let mut whole = Connection::game(session());
    let all: Vec<Vec<u8>> = whole.on_read(&bytes).unwrap().replies.iter().map(|m| m.as_slice().to_vec()).collect();
    let mut bytewise = Connection::game(session());
    let mut each = Vec::new();
    for b in bytes {
        let o = bytewise.on_read(&[b]).unwrap();
        assert_eq!(o.handoff, None);
        each.extend(o.replies.iter().map(|m| m.as_slice().to_vec()));
    }
    assert_eq!(all.len(), 4);
    assert_eq!(each, all);
}
