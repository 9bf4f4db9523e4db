//! What a phase hands to the next: where to connect and who the client is.
use vstd::prelude::*;
use crate::input_message::DecodeError;

verus! {

/// The identity that the login server grants, carried from phase to phase.
#[derive(Debug, Clone, Copy, PartialEq, Eq, Structural)]
pub struct SessionContext {
    pub account_id: u32,
    pub login_id: u32,
    /// The session token.
    pub login_id_2: u32,
    pub gender: u8,
    /// The character chosen; zero until one is.
    pub char_id: u32,
}

/// A server address as the protocol carries it: the four octets of an IPv4 address,
/// first octet in the lowest byte, and a port.
#[derive(Debug, Clone, Copy, PartialEq, Eq, Structural)]
pub struct ServerAddr {
    pub ip: u32,
    pub port: u16,
}

impl ServerAddr {
    /// The octets of the address in the order they are written, `a.b.c.d`.
    pub fn octets(&self) -> (r: (u8, u8, u8, u8))
        ensures
            r.0 as int == self.ip % 256,
            r.1 as int == (self.ip / 0x100) % 256,
            r.2 as int == (self.ip / 0x10000) % 256,
            r.3 as int == self.ip / 0x1000000,
    {
        let ip = self.ip;
        ((ip % 256) as u8, ((ip / 0x100) % 256) as u8, ((ip / 0x10000) % 256) as u8, (ip / 0x1000000) as u8)
    }
}

/// Why a phase cannot go on with its connection.
#[derive(Debug, Clone, Copy, PartialEq, Eq, Structural)]
pub enum PhaseError {
    /// A packet came whose opcode the phase does not handle.
    UnknownOpcode(u16),
    /// A payload is shorter than, or shaped otherwise than, its layout.
    Decode(DecodeError),
    /// A status packet named a status that it cannot carry.
    InvalidStatus(u16),
    /// The login server granted a session but listed no server.
    NoServer,
}

} // verus!
