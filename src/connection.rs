//! One connection of a session: the framer of its phase and the phase's decisions, behind
//! one interface, so that every phase runs the same read loop.
use vstd::prelude::*;
use crate::character_list::{
    CharListPlan, CharListStep, char_list_packet_handler, char_list_plan, char_list_plan_of,
    char_list_table,
};
use crate::framer::{Frame, FrameError, Framer, FramerView, initial_view, step};
use crate::game::{GamePlan, game_packet_handler, game_plan, game_plan_of, game_table};
use crate::login::{LoginStep, login_packet_handler, login_plan, login_table};
use crate::network_message::{NetworkMessage, messages_bytes};
use crate::session::{PhaseError, ServerAddr, SessionContext};

verus! {

/// The tier that a connection talks to, with the session it carries.
#[derive(Debug, Clone, Copy, PartialEq, Eq, Structural)]
pub enum Phase {
    Login,
    CharList(SessionContext),
    Game(SessionContext),
}

/// The end of a phase: where the next one connects, and with which session.
#[derive(Debug, Clone, Copy, PartialEq, Eq, Structural)]
pub enum Handoff {
    ToCharList { server: ServerAddr, session: SessionContext },
    ToGame { server: ServerAddr, session: SessionContext },
}

/// Why a connection cannot go on.
#[derive(Debug, Clone, Copy, PartialEq, Eq, Structural)]
pub enum ConnectionError {
    /// The stream lost its alignment.
    Frame(FrameError),
    /// A packet could not be handled.
    Phase(PhaseError),
}

/// What a connection does on the packet `(op, p)`: the packets to send, in order, and the
/// handoff if the phase ends.
#[verifier::opaque]
pub open spec fn frame_plan(phase: Phase, op: u16, p: Seq<u8>) -> Result<
    (Seq<Seq<u8>>, Option<Handoff>),
    PhaseError,
> {
    match phase {
        Phase::Login => match login_plan(op, p) {
            Ok(LoginStep::Granted { server, session }) => Ok(
                (Seq::empty(), Some(Handoff::ToCharList { server, session })),
            ),
            Ok(LoginStep::Refused(_)) => Ok((Seq::empty(), None)),
            Err(e) => Err(e),
        },
        Phase::CharList(s) => match char_list_plan(op, p, s) {
            CharListPlan::Continue(rs) => Ok((rs, None)),
            CharListPlan::EnterGame(server, session) => Ok(
                (Seq::empty(), Some(Handoff::ToGame { server, session })),
            ),
            CharListPlan::Fail(e) => Err(e),
        },
        Phase::Game(_) => match game_plan(op, p) {
            GamePlan::Continue(rs) => Ok((rs, None)),
            GamePlan::Fail(e) => Err(e),
        },
    }
}

/// What the bytes `s` do to a connection of phase `phase` whose framer has table `t` and
/// starts in state `v`: the framer's state after them, the packets to send in order, and
/// the handoff if the phase ended. Each packet is decided on as soon as its last byte is
/// in; once a packet ends the phase, the bytes after it are not looked at.
pub open spec fn read_steps(
    phase: Phase,
    t: Map<u16, crate::framer::LengthPolicy>,
    v: FramerView,
    s: Seq<u8>,
) -> Result<(FramerView, Seq<Seq<u8>>, Option<Handoff>), ConnectionError>
    decreases s.len(),
{
    if s.len() == 0 {
        Ok((v, Seq::empty(), None))
    } else {
        match read_steps(phase, t, v, s.drop_last()) {
            Err(e) => Err(e),
            Ok((v1, rs, Some(h))) => Ok((v1, rs, Some(h))),
            Ok((v1, rs, None)) => match step(t, v1, s.last()) {
                Err(e) => Err(ConnectionError::Frame(e)),
                Ok((v2, None)) => Ok((v2, rs, None)),
                Ok((v2, Some(f))) => match frame_plan(phase, f.0, f.1) {
                    Err(e) => Err(ConnectionError::Phase(e)),
                    Ok((rs2, h)) => Ok((v2, rs + rs2, h)),
                },
            },
        }
    }
}

/// What one read does: the packets to send, in order, and the handoff if the phase
/// ended; or the error of the first packet, or of the framing, that comes before any
/// handoff.
pub open spec fn read_plan(
    phase: Phase,
    t: Map<u16, crate::framer::LengthPolicy>,
    v: FramerView,
    bytes: Seq<u8>,
) -> Result<(Seq<Seq<u8>>, Option<Handoff>), ConnectionError> {
    match read_steps(phase, t, v, bytes) {
        Err(e) => Err(e),
        Ok((_, rs, h)) => Ok((rs, h)),
    }
}

/// Once a prefix of a read has ended the phase or failed, the rest of the read changes
/// nothing.
pub proof fn lemma_read_steps_settled(
    phase: Phase,
    t: Map<u16, crate::framer::LengthPolicy>,
    v: FramerView,
    s: Seq<u8>,
    k: int,
)
    requires
        0 <= k <= s.len(),
        read_steps(phase, t, v, s.subrange(0, k)) is Err || read_steps(
            phase,
            t,
            v,
            s.subrange(0, k),
        )->Ok_0.2 is Some,
    ensures
        read_steps(phase, t, v, s) == read_steps(phase, t, v, s.subrange(0, k)),
    decreases s.len(),
{
    if s.len() > k {
        let d = s.drop_last();
        assert(d.subrange(0, k) =~= s.subrange(0, k));
        lemma_read_steps_settled(phase, t, v, d, k);
    } else {
        assert(s.subrange(0, k) =~= s);
    }
}

/// Two reads in a row do what one read of both does, as long as the first ends neither
/// in an error nor in a handoff: the replies of the first come before those of the second.
pub proof fn lemma_read_steps_split(
    phase: Phase,
    t: Map<u16, crate::framer::LengthPolicy>,
    v: FramerView,
    a: Seq<u8>,
    b: Seq<u8>,
)
    requires
        read_steps(phase, t, v, a) is Ok,
        read_steps(phase, t, v, a)->Ok_0.2 is None,
    ensures
        read_steps(phase, t, v, a + b) == match read_steps(phase, t, read_steps(phase, t, v, a)->Ok_0.0, b) {
            Err(e) => Err(e),
            Ok((v2, rs2, h)) => Ok((v2, read_steps(phase, t, v, a)->Ok_0.1 + rs2, h)),
        },
    decreases b.len(),
{
    let v1 = read_steps(phase, t, v, a)->Ok_0.0;
    let rs1 = read_steps(phase, t, v, a)->Ok_0.1;
    if b.len() == 0 {
        assert(a + b =~= a);
        assert(rs1 + Seq::<Seq<u8>>::empty() =~= rs1);
    } else {
        assert((a + b).drop_last() =~= a + b.drop_last());
        assert((a + b).last() == b.last());
        lemma_read_steps_split(phase, t, v, a, b.drop_last());
        match read_steps(phase, t, v1, b.drop_last()) {
            Ok((v2, rs2, None)) => {
                match step(t, v2, b.last()) {
                    Ok((v3, Some(f))) => {
                        match frame_plan(phase, f.0, f.1) {
                            Ok((rs3, h)) => {
                                assert(rs1 + (rs2 + rs3) =~= (rs1 + rs2) + rs3);
                            },
                            Err(_) => {},
                        }
                    },
                    _ => {},
                }
            },
            _ => {},
        }
    }
}

/// The packets to send after a read, in order, and the handoff if the phase ended.
pub struct Outcome {
    pub replies: Vec<NetworkMessage>,
    pub handoff: Option<Handoff>,
}

pub open spec fn outcome_view(r: Result<Outcome, ConnectionError>) -> Result<
    (Seq<Seq<u8>>, Option<Handoff>),
    ConnectionError,
> {
    match r {
        Ok(o) => Ok((messages_bytes(o.replies@), o.handoff)),
        Err(e) => Err(e),
    }
}

fn append_messages(to: &mut Vec<NetworkMessage>, more: Vec<NetworkMessage>)
    ensures
        messages_bytes(final(to)@) == messages_bytes(old(to)@) + messages_bytes(more@),
{
    let ghost added = more@;
    let mut more = more;
    to.append(&mut more);
    assert(messages_bytes(to@) =~= messages_bytes(old(to)@) + messages_bytes(added));
}

/// A connection of one phase.
pub struct Connection {
    pub phase: Phase,
    pub framer: Framer,
}

impl Connection {
    pub open spec fn wf(&self) -> bool {
        self.framer.wf()
    }

    /// A connection to the login server.
    pub fn login() -> (r: Connection)
        ensures
            r.wf(),
            r.phase == Phase::Login,
            r.framer.view() == initial_view(),
            r.framer.table.map() == crate::login::login_lengths(),
    {
        Connection { phase: Phase::Login, framer: Framer::new(login_table()) }
    }

    /// A connection to the character server, for `session`.
    pub fn char_list(session: SessionContext) -> (r: Connection)
        ensures
            r.wf(),
            r.phase == Phase::CharList(session),
            r.framer.view() == initial_view(),
            r.framer.table.map() == crate::character_list::char_list_lengths(),
    {
        Connection { phase: Phase::CharList(session), framer: Framer::new(char_list_table()) }
    }

    /// A connection to the map server, for `session`.
    pub fn game(session: SessionContext) -> (r: Connection)
        ensures
            r.wf(),
            r.phase == Phase::Game(session),
            r.framer.view() == initial_view(),
            r.framer.table.map() == crate::game::game_lengths(),
    {
        Connection { phase: Phase::Game(session), framer: Framer::new(game_table()) }
    }

    /// Decides on one packet of the connection's phase.
    pub fn on_frame(&self, frame: &Frame) -> (r: Result<(Vec<NetworkMessage>, Option<Handoff>), PhaseError>)
        ensures
            match r {
                Ok((ms, h)) => frame_plan(self.phase, frame.opcode, frame.payload@) == Ok::<
                    (Seq<Seq<u8>>, Option<Handoff>),
                    PhaseError,
                >((messages_bytes(ms@), h)),
                Err(e) => frame_plan(self.phase, frame.opcode, frame.payload@) == Err::<
                    (Seq<Seq<u8>>, Option<Handoff>),
                    PhaseError,
                >(e),
            },
    {
        reveal(frame_plan);
        match self.phase {
            Phase::Login => match login_packet_handler(frame) {
                Ok(LoginStep::Granted { server, session }) => {
                    let ms: Vec<NetworkMessage> = Vec::new();
                    assert(messages_bytes(ms@) =~= Seq::<Seq<u8>>::empty());
                    Ok((ms, Some(Handoff::ToCharList { server, session })))
                },
                Ok(LoginStep::Refused(_)) => {
                    let ms: Vec<NetworkMessage> = Vec::new();
                    assert(messages_bytes(ms@) =~= Seq::<Seq<u8>>::empty());
                    Ok((ms, None))
                },
                Err(e) => Err(e),
            },
            Phase::CharList(s) => {
                let r = char_list_packet_handler(frame, &s);
                proof {
                    assert(char_list_plan_of(r) == char_list_plan(frame.opcode, frame.payload@, s));
                }
                match r {
                    Ok(CharListStep::Continue(ms)) => Ok((ms, None)),
                    Ok(CharListStep::EnterGame { server, session }) => {
                        let ms: Vec<NetworkMessage> = Vec::new();
                        assert(messages_bytes(ms@) =~= Seq::<Seq<u8>>::empty());
                        Ok((ms, Some(Handoff::ToGame { server, session })))
                    },
                    Err(e) => Err(e),
                }
            },
            Phase::Game(_) => {
                let r = game_packet_handler(frame);
                proof {
                    assert(game_plan_of(r) == game_plan(frame.opcode, frame.payload@));
                }
                match r {
                    Ok(ms) => Ok((ms, None)),
                    Err(e) => Err(e),
                }
            },
        }
    }

    /// Takes the bytes of one read, byte by byte: decides on each packet as soon as it is
    /// complete, and stops at the first packet that ends the phase, leaving the bytes after
    /// it unread.
    pub fn on_read(&mut self, bytes: &[u8]) -> (r: Result<Outcome, ConnectionError>)
        requires
            old(self).wf(),
        ensures
            final(self).wf(),
            final(self).phase == old(self).phase,
            final(self).framer.table.map() == old(self).framer.table.map(),
            outcome_view(r) == read_plan(
                old(self).phase,
                old(self).framer.table.map(),
                old(self).framer.view(),
                bytes@,
            ),
            r matches Ok(o) && o.handoff is None ==> final(self).framer.view() == read_steps(
                old(self).phase,
                old(self).framer.table.map(),
                old(self).framer.view(),
                bytes@,
            )->Ok_0.0,
    {
        let ghost t = self.framer.table.map();
        let ghost v0 = self.framer.view();
        let mut replies: Vec<NetworkMessage> = Vec::new();
        let mut i: usize = 0;
        assert(bytes@.subrange(0, 0) =~= Seq::<u8>::empty());
        assert(messages_bytes(replies@) =~= Seq::<Seq<u8>>::empty());
        while i < bytes.len()
            invariant
                self.wf(),
                self.phase == old(self).phase,
                self.framer.table.map() == t,
                t == old(self).framer.table.map(),
                v0 == old(self).framer.view(),
                i <= bytes@.len(),
                read_steps(self.phase, t, v0, bytes@.subrange(0, i as int)) == Ok::<
                    (FramerView, Seq<Seq<u8>>, Option<Handoff>),
                    ConnectionError,
                >((self.framer.view(), messages_bytes(replies@), None)),
            decreases bytes@.len() - i,
        {
            let ghost before = self.framer.view();
            let ghost sent = messages_bytes(replies@);
            proof {
                assert(bytes@.subrange(0, i + 1).drop_last() =~= bytes@.subrange(0, i as int));
                assert(bytes@.subrange(0, i + 1).last() == bytes@[i as int]);
            }
            let pushed = self.framer.push_byte(bytes[i]);
            match pushed {
                Err(e) => {
                    proof {
                        lemma_read_steps_settled(self.phase, t, v0, bytes@, i + 1);
                    }
                    return Err(ConnectionError::Frame(e));
                },
                Ok(None) => {},
                Ok(Some(frame)) => {
                    match self.on_frame(&frame) {
                        Err(e) => {
                            proof {
                                lemma_read_steps_settled(self.phase, t, v0, bytes@, i + 1);
                            }
                            return Err(ConnectionError::Phase(e));
                        },
                        Ok((ms, h)) => {
                            append_messages(&mut replies, ms);
                            match h {
                                Some(handoff) => {
                                    proof {
                                        lemma_read_steps_settled(self.phase, t, v0, bytes@, i + 1);
                                    }
                                    return Ok(Outcome { replies, handoff: Some(handoff) });
                                },
                                None => {},
                            }
                        },
                    }
                },
            }
            i = i + 1;
        }
        assert(bytes@.subrange(0, i as int) =~= bytes@);
        Ok(Outcome { replies, handoff: None })
    }
}

} // verus!
