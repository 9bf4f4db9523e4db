//! The login phase: the client hashes in, asks for authentication, and the server grants
//! a session with a list of character servers, or refuses.
use vstd::prelude::*;
use crate::bytes::{le16, le32};
use crate::enums::AuthResult;
use crate::framer::{Frame, LengthPolicy, PacketLengthTable};
use crate::input_message::{DecodeError, InputMessage, latin1, until_nul};
use crate::network_message::{EncodeError, NetworkMessage, WireInt, fixed_field};
use crate::session::{PhaseError, ServerAddr, SessionContext};
use vstd::string::StringSliceAdditionalSpecFns;

verus! {

/// The packets that the login server sends.
#[allow(non_camel_case_types)]
#[derive(Debug, Clone, Copy, PartialEq, Eq, Structural)]
pub enum LoginServer {
    AuthOk,
    AuthResult,
}

impl LoginServer {
    /// The wire code.
    pub open spec fn spec_code(self) -> u16 {
        match self {
            LoginServer::AuthOk => 0x0ac4,
            LoginServer::AuthResult => 0x0081,
        }
    }

    pub fn code(self) -> (r: u16)
        ensures
            r == self.spec_code(),
    {
        match self {
            LoginServer::AuthOk => 0x0ac4,
            LoginServer::AuthResult => 0x0081,
        }
    }

    /// The variant with wire code `code`, if there is one.
    pub open spec fn spec_from_code(code: u16) -> Option<LoginServer> {
        if code == 0x0ac4 {
            Some(LoginServer::AuthOk)
        } else if code == 0x0081 {
            Some(LoginServer::AuthResult)
        } else {
            None
        }
    }

    /// The variant with wire code `code`, if there is one.
    pub fn from_code(code: u16) -> (r: Option<LoginServer>)
        ensures
            r == Self::spec_from_code(code),
            match r {
                Some(e) => e.spec_code() == code,
                None => forall|e: LoginServer| #[trigger] e.spec_code() != code,
            },
    {
        match code {
            0x0ac4 => Some(LoginServer::AuthOk),
            0x0081 => Some(LoginServer::AuthResult),
            _ => None,
        }
    }
}

/// The packets that the client sends to the login server.
#[allow(non_camel_case_types)]
#[derive(Debug, Clone, Copy, PartialEq, Eq, Structural)]
pub enum LoginClient {
    UDPCLHASH,
    REQAUTH,
}

impl LoginClient {
    /// The wire code.
    pub open spec fn spec_code(self) -> u16 {
        match self {
            LoginClient::UDPCLHASH => 0x0204,
            LoginClient::REQAUTH => 0x0064,
        }
    }

    pub fn code(self) -> (r: u16)
        ensures
            r == self.spec_code(),
    {
        match self {
            LoginClient::UDPCLHASH => 0x0204,
            LoginClient::REQAUTH => 0x0064,
        }
    }

    /// The variant with wire code `code`, if there is one.
    pub open spec fn spec_from_code(code: u16) -> Option<LoginClient> {
        if code == 0x0204 {
            Some(LoginClient::UDPCLHASH)
        } else if code == 0x0064 {
            Some(LoginClient::REQAUTH)
        } else {
            None
        }
    }

    /// The variant with wire code `code`, if there is one.
    pub fn from_code(code: u16) -> (r: Option<LoginClient>)
        ensures
            r == Self::spec_from_code(code),
            match r {
                Some(e) => e.spec_code() == code,
                None => forall|e: LoginClient| #[trigger] e.spec_code() != code,
            },
    {
        match code {
            0x0204 => Some(LoginClient::UDPCLHASH),
            0x0064 => Some(LoginClient::REQAUTH),
            _ => None,
        }
    }
}

/// The width of the user name and password fields of an authentication request.
pub const CREDENTIAL_FIELD_LEN: usize = 24;

/// The bytes of an authentication grant before its web token.
pub const AUTH_OK_HEAD_LEN: usize = 43;

/// The bytes of one server entry of an authentication grant.
pub const SERVER_ENTRY_LEN: usize = 160;

/// The word that an authentication request carries before the user name.
pub const REQAUTH_VERSION: u32 = 0x80000001;

/// The client type that an authentication request ends with.
pub const CLIENT_TYPE: u8 = 2;

/// The lengths of the packets that the login server sends.
pub open spec fn login_lengths() -> Map<u16, LengthPolicy> {
    Map::empty().insert(0x0AC4u16, LengthPolicy::SentinelVariable).insert(
        0x0081u16,
        LengthPolicy::Fixed(1),
    )
}

pub fn login_table() -> (r: PacketLengthTable)
    ensures
        r.map() == login_lengths(),
{
    let mut t = PacketLengthTable::new();
    t.insert(LoginServer::AuthOk.code(), LengthPolicy::SentinelVariable);
    t.insert(LoginServer::AuthResult.code(), LengthPolicy::Fixed(1));
    t
}

/// The client hash packet: its opcode, then the hash.
pub fn udpclhash_message(hash: &[u8]) -> (r: Result<NetworkMessage, EncodeError>)
    ensures
        match r {
            Ok(m) => m.wf() && m.bytes() == 0x0204u16.le_bytes() + hash@,
            Err(e) => e == EncodeError::Overflow && 2 + hash@.len() > crate::network_message::MAX_MESSAGE_LEN,
        },
{
    let mut m = NetworkMessage::new();
    let _ = m.add(LoginClient::UDPCLHASH.code());
    match m.add_bytes(hash) {
        Ok(_) => Ok(m),
        Err(e) => Err(e),
    }
}

/// The authentication request: opcode, a version word, user name and password each in a
/// zero-padded field of 24 bytes, and the client type. A name or password of 24 bytes or
/// more is refused.
pub fn reqauth_message(username: &str, password: &str) -> (r: Result<NetworkMessage, EncodeError>)
    ensures
        match r {
            Ok(m) => m.wf() && username.spec_bytes().len() < 24 && password.spec_bytes().len() < 24
                && m.bytes() == 0x0064u16.le_bytes() + REQAUTH_VERSION.le_bytes() + fixed_field(
                username.spec_bytes(),
                24,
            ) + fixed_field(password.spec_bytes(), 24) + seq![CLIENT_TYPE],
            Err(e) => e == EncodeError::TooLong && (username.spec_bytes().len() >= 24
                || password.spec_bytes().len() >= 24),
        },
{
    let mut m = NetworkMessage::new();
    let _ = m.add(LoginClient::REQAUTH.code());
    let _ = m.add(REQAUTH_VERSION);
    match m.add_fixed_string(username, CREDENTIAL_FIELD_LEN) {
        Ok(_) => {},
        Err(e) => return Err(e),
    }
    match m.add_fixed_string(password, CREDENTIAL_FIELD_LEN) {
        Ok(_) => {},
        Err(e) => return Err(e),
    }
    let _ = m.add(CLIENT_TYPE);
    Ok(m)
}

/// One character server that an authentication grant lists.
#[derive(Debug, Clone, PartialEq, Eq)]
pub struct ServerInfo {
    pub ip: u32,
    pub port: u16,
    pub name: String,
    pub users: u16,
    pub server_type: u16,
    pub is_new: u16,
}

/// `si` is the server entry at offset `o` of `b`.
pub open spec fn server_info_at(si: ServerInfo, b: Seq<u8>, o: int) -> bool {
    &&& si.ip == le32(b, o)
    &&& si.port == le16(b, o + 4)
    &&& si.name@ == latin1(until_nul(b.subrange(o + 6, o + 26)))
    &&& si.users == le16(b, o + 26)
    &&& si.server_type == le16(b, o + 28)
    &&& si.is_new == le16(b, o + 30)
}

/// Reads one server entry: address, port, a name of 20 bytes, user count, type and a
/// newness flag, then 128 bytes that carry nothing.
pub fn read_server_info(data: &mut InputMessage) -> (r: Result<ServerInfo, DecodeError>)
    requires
        old(data).wf(),
    ensures
        final(data).wf(),
        final(data).bytes() == old(data).bytes(),
        match r {
            Ok(si) => old(data).has(160) && server_info_at(si, old(data).bytes(), old(data).pos())
                && final(data).pos() == old(data).pos() + 160,
            Err(e) => !old(data).has(160) && e == DecodeError::OutOfBounds && final(data).pos()
                == old(data).pos(),
        },
{
    if data.remaining() < SERVER_ENTRY_LEN {
        return Err(DecodeError::OutOfBounds);
    }
    let ip = data.read_u32().unwrap();
    let port = data.read_u16().unwrap();
    let name = data.read_string(Some(20)).unwrap();
    let users = data.read_u16().unwrap();
    let server_type = data.read_u16().unwrap();
    let is_new = data.read_u16().unwrap();
    data.skip_bytes(128).unwrap();
    Ok(ServerInfo { ip, port, name, users, server_type, is_new })
}

/// An authentication grant.
#[derive(Debug, Clone, PartialEq, Eq)]
pub struct AuthOk {
    pub login_id: u32,
    pub account_id: u32,
    pub login_id_2: u32,
    pub ip: u32,
    pub gender: u8,
    pub web_token: String,
    pub servers: Vec<ServerInfo>,
}

/// Where the server entries of a grant at offset `s` of `b` start: after the fixed head
/// and the terminated web token.
pub open spec fn servers_start(b: Seq<u8>, s: int) -> int {
    s + 43 + until_nul(b.subrange(s + 43, b.len() as int)).len() + 1
}

/// The bytes from `s` to the end of `b` are a grant: a head of 43 bytes, a terminated
/// web token, and whole server entries up to the end.
pub open spec fn auth_ok_shape(b: Seq<u8>, s: int) -> bool {
    &&& s + 43 <= b.len()
    &&& b.subrange(s + 43, b.len() as int).contains(0u8)
    &&& (b.len() - servers_start(b, s)) % 160 == 0
}

/// Why a grant at offset `s` of `b` that is not well formed cannot be read: a missing
/// terminator of the web token, or too few bytes.
pub open spec fn auth_ok_error(b: Seq<u8>, s: int) -> DecodeError {
    if s + 43 <= b.len() && !b.subrange(s + 43, b.len() as int).contains(0u8) {
        DecodeError::Unterminated
    } else {
        DecodeError::OutOfBounds
    }
}

/// Reads an authentication grant that runs to the end of the payload: login id, account
/// id, session token, address, 24 unused bytes, two unknown bytes, gender, the web token
/// and then server entries up to the end.
pub fn login_auth_ok(data: &mut InputMessage) -> (r: Result<AuthOk, DecodeError>)
    requires
        old(data).wf(),
    ensures
        final(data).wf(),
        final(data).bytes() == old(data).bytes(),
        match r {
            Ok(a) => {
                let b = old(data).bytes();
                let s = old(data).pos();
                &&& auth_ok_shape(b, s)
                &&& final(data).pos() == b.len()
                &&& a.login_id == le32(b, s)
                &&& a.account_id == le32(b, s + 4)
                &&& a.login_id_2 == le32(b, s + 8)
                &&& a.ip == le32(b, s + 12)
                &&& a.gender == b[s + 42]
                &&& a.web_token@ == latin1(until_nul(b.subrange(s + 43, b.len() as int)))
                &&& a.servers@.len() * 160 == b.len() - servers_start(b, s)
                &&& forall|i: int|
                    0 <= i < a.servers@.len() ==> server_info_at(
                        #[trigger] a.servers@[i],
                        b,
                        servers_start(b, s) + 160 * i,
                    )
            },
            Err(e) => !auth_ok_shape(old(data).bytes(), old(data).pos()) && e == auth_ok_error(
                old(data).bytes(),
                old(data).pos(),
            ),
        },
{
    let ghost b = data.bytes();
    let ghost s = data.pos();
    if data.remaining() < AUTH_OK_HEAD_LEN {
        return Err(DecodeError::OutOfBounds);
    }
    let login_id = data.read_u32().unwrap();
    let account_id = data.read_u32().unwrap();
    let login_id_2 = data.read_u32().unwrap();
    let ip = data.read_u32().unwrap();
    data.skip_bytes(24).unwrap();
    let _unknown = data.read_u16().unwrap();
    let gender = data.read_u8().unwrap();
    assert(data.rest() =~= b.subrange(s + 43, b.len() as int));
    let web_token = match data.read_string(None) {
        Ok(t) => t,
        Err(e) => return Err(e),
    };
    let ghost start = data.pos();
    assert(start == servers_start(b, s));
    let mut servers: Vec<ServerInfo> = Vec::new();
    while !data.is_eof()
        invariant
            data.wf(),
            data.bytes() == b,
            b == old(data).bytes(),
            s == old(data).pos(),
            start == servers_start(b, s),
            s + 43 <= b.len(),
            b.subrange(s + 43, b.len() as int).contains(0u8),
            start <= data.pos() <= b.len(),
            data.pos() == start + 160 * servers@.len(),
            forall|i: int|
                0 <= i < servers@.len() ==> server_info_at(#[trigger] servers@[i], b, start + 160 * i),
        decreases b.len() - data.pos(),
    {
        match read_server_info(data) {
            Ok(si) => {
                servers.push(si);
            },
            Err(e) => {
                proof {
                    let k = servers@.len() as int;
                    let rem = b.len() - data.pos();
                    vstd::arithmetic::div_mod::lemma_fundamental_div_mod_converse(
                        b.len() - start,
                        160,
                        k,
                        rem,
                    );
                }
                return Err(e);
            },
        }
    }
    proof {
        vstd::arithmetic::div_mod::lemma_fundamental_div_mod_converse(
            b.len() - start,
            160,
            servers@.len() as int,
            0,
        );
    }
    Ok(AuthOk { login_id, account_id, login_id_2, ip, gender, web_token, servers })
}

/// Reads the reason code of a refusal.
pub fn login_auth_result(data: &mut InputMessage) -> (r: Result<Option<AuthResult>, DecodeError>)
    requires
        old(data).wf(),
    ensures
        final(data).wf(),
        final(data).bytes() == old(data).bytes(),
        match r {
            Ok(o) => old(data).has(1) && o == AuthResult::spec_from_code(old(data).bytes()[old(data).pos()])
                && final(data).pos() == old(data).pos() + 1,
            Err(e) => !old(data).has(1) && e == DecodeError::OutOfBounds,
        },
{
    match data.read_u8() {
        Ok(code) => Ok(AuthResult::from_code(code)),
        Err(e) => Err(e),
    }
}

/// What the login phase does after a packet.
#[derive(Debug, Clone, Copy, PartialEq, Eq, Structural)]
pub enum LoginStep {
    /// The login was refused, for a known reason or not; the phase keeps listening.
    Refused(Option<AuthResult>),
    /// The login was granted: the phase ends and the character list phase starts at
    /// `server` with `session`.
    Granted { server: ServerAddr, session: SessionContext },
}

/// The session that a grant with payload `p` opens.
pub open spec fn granted_session(p: Seq<u8>) -> SessionContext {
    SessionContext {
        account_id: le32(p, 4) as u32,
        login_id: le32(p, 0) as u32,
        login_id_2: le32(p, 8) as u32,
        gender: p[42],
        char_id: 0,
    }
}

/// The last server that a grant with payload `p` lists: the one the client goes on to.
pub open spec fn last_server(p: Seq<u8>) -> ServerAddr {
    ServerAddr { ip: le32(p, p.len() - 160) as u32, port: le16(p, p.len() - 156) as u16 }
}

/// What the login phase must do on a packet with opcode `op` and payload `p`.
pub open spec fn login_plan(op: u16, p: Seq<u8>) -> Result<LoginStep, PhaseError> {
    if op == 0x0AC4 {
        if !auth_ok_shape(p, 0) {
            Err(PhaseError::Decode(auth_ok_error(p, 0)))
        } else if servers_start(p, 0) == p.len() {
            Err(PhaseError::NoServer)
        } else {
            Ok(LoginStep::Granted { server: last_server(p), session: granted_session(p) })
        }
    } else if op == 0x0081 {
        if p.len() >= 1 {
            Ok(LoginStep::Refused(AuthResult::spec_from_code(p[0])))
        } else {
            Err(PhaseError::Decode(DecodeError::OutOfBounds))
        }
    } else {
        Err(PhaseError::UnknownOpcode(op))
    }
}

/// Decides on one packet of the login phase: a grant ends the phase, a refusal does not.
pub fn login_packet_handler(frame: &Frame) -> (r: Result<LoginStep, PhaseError>)
    ensures
        r == login_plan(frame.opcode, frame.payload@),
{
    let ghost p = frame.payload@;
    let mut data = InputMessage::new(frame.payload.clone());
    match LoginServer::from_code(frame.opcode) {
        Some(LoginServer::AuthOk) => {
            match login_auth_ok(&mut data) {
                Ok(a) => {
                    let n = a.servers.len();
                    if n == 0 {
                        return Err(PhaseError::NoServer);
                    }
                    let last = &a.servers[n - 1];
                    assert(server_info_at(a.servers@[n - 1], p, servers_start(p, 0) + 160 * (n - 1)));
                    let session = SessionContext {
                        account_id: a.account_id,
                        login_id: a.login_id,
                        login_id_2: a.login_id_2,
                        gender: a.gender,
                        char_id: 0,
                    };
                    Ok(LoginStep::Granted { server: ServerAddr { ip: last.ip, port: last.port }, session })
                },
                Err(e) => Err(PhaseError::Decode(e)),
            }
        },
        Some(LoginServer::AuthResult) => {
            match login_auth_result(&mut data) {
                Ok(o) => Ok(LoginStep::Refused(o)),
                Err(e) => Err(PhaseError::Decode(e)),
            }
        },
        None => Err(PhaseError::UnknownOpcode(frame.opcode)),
    }
}

} // verus!
