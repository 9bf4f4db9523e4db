use ro_client::character_list::{
    char_list_packet_handler, char_list_reqconnect, char_list_table, CharListServer, CharListStep,
};
use ro_client::enums::{AuthResult, StatusPoint};
use ro_client::framer::{Frame, Framer};
use ro_client::game::{
    game_connect_map_server, game_packet_handler, game_request_ack_map, game_request_chat_message,
    game_request_effects_option, game_table, GameServer,
};
use ro_client::login::{login_packet_handler, login_table, reqauth_message, udpclhash_message, LoginStep};
use ro_client::network_message::EncodeError;
use ro_client::session::{PhaseError, ServerAddr, SessionContext};
use ro_client::input_message::DecodeError;

fn auth_ok_packet(servers: &[(u32, u16, &str)]) -> Vec<u8> {
    let mut body = Vec::new();
    body.extend(0x11111111u32.to_le_bytes()); // login id
    body.extend(0x22222222u32.to_le_bytes()); // account id
    body.extend(0x33333333u32.to_le_bytes()); // session token
    body.extend(0x0100007Fu32.to_le_bytes()); // address
    body.extend([0u8; 24]);
    body.extend(0u16.to_le_bytes());
    body.push(1); // gender
    body.extend(b"token\0");
    for (ip, port, name) in servers {
        body.extend(ip.to_le_bytes());
        body.extend(port.to_le_bytes());
        let mut n = name.as_bytes().to_vec();
        n.resize(20, 0);
        body.extend(n);
        body.extend(5u16.to_le_bytes());
        body.extend(0u16.to_le_bytes());
        body.extend(0u16.to_le_bytes());
        body.extend([0u8; 128]);
    }
    let mut p = Vec::new();
    p.extend(0x0AC4u16.to_le_bytes());
    p.extend(((body.len() + 4) as u16).to_le_bytes());
    p.extend(body);
    p
}

#[test]
fn login_handshake_packets() {
    let hash = [0x82u8, 0xD1, 0x2C, 0x91, 0x4F, 0x5A, 0xD4, 0x8F, 0xD9, 0x6F, 0xCF, 0x7E, 0xF4, 0xCC, 0x49, 0x2D];
    let h = udpclhash_message(&hash).unwrap();
    assert_eq!(&h.as_slice()[..2], &[0x04, 0x02]);
    assert_eq!(&h.as_slice()[2..], &hash);
    let a = reqauth_message("test", "test123").unwrap();
    let b = a.as_slice();
    assert_eq!(b.len(), 55);
    assert_eq!(&b[0..6], &[0x64, 0x00, 0x01, 0x00, 0x00, 0x80]);
    assert_eq!(&b[6..11], b"test\0");
    assert!(b[11..30].iter().all(|x| *x == 0));
    assert_eq!(&b[30..38], b"test123\0");
    assert!(b[38..54].iter().all(|x| *x == 0));
    assert_eq!(b[54], 2);
}

#[test]
fn credentials_too_long_are_refused() {
    let long = "x".repeat(24);
    assert_eq!(reqauth_message(&long, "pw").err(), Some(EncodeError::TooLong));
    assert_eq!(reqauth_message("user", &long).err(), Some(EncodeError::TooLong));
    assert!(reqauth_message(&"x".repeat(23), "pw").is_ok());
}

#[test]
fn login_grant_leads_to_char_list_server() {
    let packet = auth_ok_packet(&[(0x0A00A8C0, 6121, "Server")]);
    let mut f = Framer::new(login_table());
    let frames = f.push_bytes(&packet).unwrap();
    assert_eq!(frames.len(), 1);
    let step = login_packet_handler(&frames[0]).unwrap();
    let session = SessionContext { account_id: 0x22222222, login_id: 0x11111111, login_id_2: 0x33333333, gender: 1, char_id: 0 };
    assert_eq!(step, LoginStep::Granted { server: ServerAddr { ip: 0x0A00A8C0, port: 6121 }, session });
    if let LoginStep::Granted { server, .. } = step {
        assert_eq!(server.octets(), (192, 168, 0, 10));
    }
}

#[test]
fn login_grant_goes_to_last_listed_server() {
    let packet = auth_ok_packet(&[(1, 100, "First"), (2, 200, "Second")]);
    let mut f = Framer::new(login_table());
    let frames = f.push_bytes(&packet).unwrap();
    match login_packet_handler(&frames[0]).unwrap() {
        LoginStep::Granted { server, .. } => assert_eq!(server, ServerAddr { ip: 2, port: 200 }),
        other => panic!("unexpected {:?}", other),
    }
}

#[test]
fn login_grant_without_server_fails() {
    let packet = auth_ok_packet(&[]);
    let mut f = Framer::new(login_table());
    let frames = f.push_bytes(&packet).unwrap();
    assert_eq!(login_packet_handler(&frames[0]), Err(PhaseError::NoServer));
}

#[test]
fn login_refusal_reasons() {
    let mut f = Framer::new(login_table());
    let frames = f.push_bytes(&[0x81, 0x00, 0x08, 0x81, 0x00, 0x05]).unwrap();
    assert_eq!(login_packet_handler(&frames[0]), Ok(LoginStep::Refused(Some(AuthResult::AlreadyOnline))));
    assert_eq!(login_packet_handler(&frames[1]), Ok(LoginStep::Refused(None)));
}

#[test]
fn login_handler_rejects_other_opcodes() {
    let fr = Frame { opcode: 0x0999, payload: vec![] };
    assert_eq!(login_packet_handler(&fr), Err(PhaseError::UnknownOpcode(0x0999)));
}

fn session() -> SessionContext {
    SessionContext { account_id: 2000001, login_id: 0xAABBCCDD, login_id_2: 0x01020304, gender: 1, char_id: 0 }
}

#[test]
fn char_list_connect_request() {
    let m = char_list_reqconnect(&session());
    let mut want = vec![0x65, 0x00];
    want.extend(2000001u32.to_le_bytes());
    want.extend(0xAABBCCDDu32.to_le_bytes());
    want.extend(0x01020304u32.to_le_bytes());
    want.extend([0, 0, 1]);
    assert_eq!(m.as_slice(), &want[..]);
}

#[test]
fn pin_code_state_asks_for_char_list() {
    let fr = Frame { opcode: CharListServer::PinCodeState.code(), payload: vec![0; 10] };
    match char_list_packet_handler(&fr, &session()).unwrap() {
        CharListStep::Continue(ms) => {
            assert_eq!(ms.len(), 1);
            assert_eq!(ms[0].as_slice(), &[0xA1, 0x09]);
        }
        _ => panic!("expected replies"),
    }
}

#[test]
fn char_page_selects_first_slot() {
    let fr = Frame { opcode: 0x0B72, payload: vec![0; 175] };
    match char_list_packet_handler(&fr, &session()).unwrap() {
        CharListStep::Continue(ms) => {
            assert_eq!(ms.len(), 1);
            assert_eq!(ms[0].as_slice(), &[0x66, 0x00, 0x00]);
        }
        _ => panic!("expected replies"),
    }
    let bad = Frame { opcode: 0x0B72, payload: vec![0; 174] };
    assert_eq!(char_list_packet_handler(&bad, &session()).err(), Some(PhaseError::Decode(DecodeError::OutOfBounds)));
}

#[test]
fn map_data_enters_game() {
    let mut p = Vec::new();
    p.extend(150001u32.to_le_bytes());
    let mut name = b"prontera.gat".to_vec();
    name.resize(16, 0);
    p.extend(name);
    p.extend(0x0100007Fu32.to_le_bytes());
    p.extend(5121u16.to_le_bytes());
    p.extend([0u8; 128]);
    let mut bytes = vec![0xC5, 0x0A];
    bytes.extend(&p);
    let mut f = Framer::new(char_list_table());
    let frames = f.push_bytes(&bytes).unwrap();
    assert_eq!(frames.len(), 1);
    match char_list_packet_handler(&frames[0], &session()).unwrap() {
        CharListStep::EnterGame { server, session: s } => {
            assert_eq!(server, ServerAddr { ip: 0x0100007F, port: 5121 });
            assert_eq!(s.char_id, 150001);
            assert_eq!(s.account_id, 2000001);
        }
        _ => panic!("expected to enter the game"),
    }
}

#[test]
fn game_connect_packet() {
    let s = SessionContext { char_id: 150001, ..session() };
    let m = game_connect_map_server(&s, 111111111);
    assert_eq!(m.length(), 23);
    assert_eq!(&m.as_slice()[0..2], &[0x36, 0x04]);
    assert_eq!(&m.as_slice()[6..10], &150001u32.to_le_bytes());
    assert_eq!(&m.as_slice()[14..22], &111111111u64.to_le_bytes());
    assert_eq!(m.as_slice()[22], 1);
}

#[test]
fn weight_limit_answers_effects_option_then_ack_map() {
    let mut f = Framer::new(game_table());
    let frames = f.push_bytes(&[0xDE, 0x0A, 0x32, 0x00, 0x00, 0x00]).unwrap();
    assert_eq!(frames.len(), 1);
    assert_eq!(frames[0].opcode, GameServer::WeightLimit.code());
    let replies = game_packet_handler(&frames[0]).unwrap();
    assert_eq!(replies.len(), 2);
    assert_eq!(replies[0].as_slice(), game_request_effects_option(0).as_slice());
    assert_eq!(replies[0].as_slice(), &[0x1D, 0x02, 0, 0, 0, 0]);
    assert_eq!(replies[1].as_slice(), game_request_ack_map().as_slice());
    assert_eq!(replies[1].as_slice(), &[0x7D, 0x00]);
}

#[test]
fn other_game_packets_need_no_reply() {
    let mut f = Framer::new(game_table());
    let frames = f.push_bytes(&[0x83, 0x02, 1, 2, 3, 4, 0x8E, 0x00, 0x07, 0x00, b'h', b'i', 0]).unwrap();
    assert_eq!(frames.len(), 2);
    assert!(game_packet_handler(&frames[0]).unwrap().is_empty());
    assert!(game_packet_handler(&frames[1]).unwrap().is_empty());
}

#[test]
fn unknown_status_is_an_error() {
    let fr = Frame { opcode: 0x00B0, payload: vec![0x3E, 0x00, 0, 0, 0, 0] };
    assert_eq!(game_packet_handler(&fr).err(), Some(PhaseError::InvalidStatus(0x3E)));
    let ok = Frame { opcode: 0x00B0, payload: vec![0x18, 0x00, 1, 0, 0, 0] };
    assert!(game_packet_handler(&ok).is_ok());
    let upd = Frame { opcode: 0x00BE, payload: vec![0x0D, 0x00, 3] };
    assert_eq!(game_packet_handler(&upd).err(), Some(PhaseError::InvalidStatus(0x0D)));
}

#[test]
fn status_codes() {
    assert_eq!(StatusPoint::from_code(0x18), Some(StatusPoint::SpWeight));
    assert_eq!(StatusPoint::from_code(99), Some(StatusPoint::SpCartinfo));
    assert_eq!(StatusPoint::from_code(219), Some(StatusPoint::SpPow));
    assert_eq!(StatusPoint::from_code(252), Some(StatusPoint::SpUcrt));
    assert_eq!(StatusPoint::from_code(61), None);
    assert_eq!(StatusPoint::SpMaxap.code(), 233);
    assert_eq!(AuthResult::from_code(2), Some(AuthResult::AlreadyLoggedWithId));
    assert_eq!(AuthResult::from_code(3), None);
}

#[test]
fn chat_message_states_its_length() {
    let m = game_request_chat_message("Testando", "oi").unwrap();
    let b = m.as_slice();
    assert_eq!(&b[0..2], &[0xF3, 0x00]);
    assert_eq!(b.len(), 4 + 8 + 3 + 2 + 1);
    assert_eq!(u16::from_le_bytes([b[2], b[3]]) as usize, b.len());
    assert_eq!(&b[4..], b"Testando : oi\0");
}
