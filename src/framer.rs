//! The stream framer: an incremental state machine that cuts a byte stream into packets.
//!
//! A packet starts with a two-byte little-endian opcode. The phase's length table says
//! how long the rest is: a fixed number of payload bytes, or a two-byte little-endian
//! total length (header included) right after the opcode.
use vstd::prelude::*;
use std::collections::HashMap;
use crate::bytes::{le16, le16_bytes, lemma_le16_bytes, get_le16, copy_range};

verus! {

broadcast use vstd::std_specs::hash::group_hash_axioms;

/// The size of the opcode.
pub const HEADER_LEN: usize = 2;

/// The size of opcode and length field together, for packets that carry their length.
pub const LENGTH_HEADER_LEN: usize = 4;

/// The largest packet that the framer will hold.
pub const MAX_PACKET_LEN: usize = 16384;

/// How the length of a packet with a given opcode is known.
#[derive(Debug, Clone, Copy, PartialEq, Eq, Structural)]
pub enum LengthPolicy {
    /// The payload after the opcode has this many bytes.
    Fixed(u16),
    /// The packet states its total length in the two bytes after the opcode.
    SentinelVariable,
}

/// The length policy of each opcode of one phase.
pub struct PacketLengthTable {
    pub lengths: HashMap<u16, LengthPolicy>,
}

impl PacketLengthTable {
    pub open spec fn map(&self) -> Map<u16, LengthPolicy> {
        self.lengths@
    }

    pub fn new() -> (r: PacketLengthTable)
        ensures
            r.map() == Map::<u16, LengthPolicy>::empty(),
    {
        PacketLengthTable { lengths: HashMap::new() }
    }

    pub fn insert(&mut self, opcode: u16, policy: LengthPolicy)
        ensures
            final(self).map() == old(self).map().insert(opcode, policy),
    {
        self.lengths.insert(opcode, policy);
    }

    pub fn get(&self, opcode: u16) -> (r: Option<LengthPolicy>)
        ensures
            r == (if self.map().contains_key(opcode) {
                Some(self.map()[opcode])
            } else {
                None
            }),
    {
        match self.lengths.get(&opcode) {
            Some(p) => Some(*p),
            None => None,
        }
    }
}

/// What the framer waits for.
#[derive(Debug, Clone, Copy, PartialEq, Eq, Structural)]
pub enum FrameState {
    /// The two opcode bytes.
    AwaitingHeader,
    /// The two bytes of a total length.
    AwaitingLengthField,
    /// The rest of the packet.
    AwaitingBody,
}

/// A fatal loss of alignment with the stream: the connection cannot go on.
#[derive(Debug, Clone, Copy, PartialEq, Eq, Structural)]
pub enum FrameError {
    /// The opcode is not in the phase's length table.
    UnknownOpcode(u16),
    /// A stated total length is shorter than opcode and length field.
    LengthTooShort(u16),
    /// The packet would be longer than the framer holds.
    LengthTooLong(usize),
}

/// One complete packet: its opcode and the bytes after its header.
#[derive(Debug, Clone, PartialEq, Eq)]
pub struct Frame {
    pub opcode: u16,
    pub payload: Vec<u8>,
}

impl Frame {
    pub open spec fn view(&self) -> (u16, Seq<u8>) {
        (self.opcode, self.payload@)
    }
}

/// The frames of a list, as opcode and payload.
pub open spec fn frames_view(fs: Seq<Frame>) -> Seq<(u16, Seq<u8>)> {
    fs.map_values(|f: Frame| f.view())
}

/// The state of a framer as a value.
pub struct FramerView {
    pub state: FrameState,
    /// The bytes of the packet in progress.
    pub buffer: Seq<u8>,
    /// How many bytes the framer needs before it decides again.
    pub target: nat,
    /// The opcode of the packet in progress.
    pub opcode: u16,
    /// Where the payload of the packet in progress starts.
    pub body_start: nat,
}

/// A framer between packets.
pub open spec fn initial_view() -> FramerView {
    FramerView {
        state: FrameState::AwaitingHeader,
        buffer: Seq::empty(),
        target: HEADER_LEN as nat,
        opcode: 0,
        body_start: HEADER_LEN as nat,
    }
}

/// The states that the framer can be in.
pub open spec fn view_wf(v: FramerView) -> bool {
    &&& v.buffer.len() < v.target <= MAX_PACKET_LEN
    &&& match v.state {
        FrameState::AwaitingHeader => v.target == HEADER_LEN,
        FrameState::AwaitingLengthField => v.target == LENGTH_HEADER_LEN && v.buffer.len()
            >= HEADER_LEN && v.body_start == LENGTH_HEADER_LEN,
        FrameState::AwaitingBody => (v.body_start == HEADER_LEN || v.body_start
            == LENGTH_HEADER_LEN) && v.body_start <= v.buffer.len(),
    }
}

/// What one byte does to the framer: its next state and the packet it completes, if any.
pub open spec fn step(table: Map<u16, LengthPolicy>, v: FramerView, b: u8) -> Result<
    (FramerView, Option<(u16, Seq<u8>)>),
    FrameError,
> {
    let buf = v.buffer.push(b);
    if buf.len() < v.target {
        Ok((FramerView { buffer: buf, ..v }, None))
    } else {
        match v.state {
            FrameState::AwaitingHeader => {
                let op = le16(buf, 0) as u16;
                if !table.contains_key(op) {
                    Err(FrameError::UnknownOpcode(op))
                } else {
                    match table[op] {
                        LengthPolicy::Fixed(n) => {
                            if n == 0 {
                                Ok((initial_view(), Some((op, Seq::empty()))))
                            } else if HEADER_LEN + n > MAX_PACKET_LEN {
                                Err(FrameError::LengthTooLong((HEADER_LEN + n) as usize))
                            } else {
                                Ok(
                                    (
                                        FramerView {
                                            state: FrameState::AwaitingBody,
                                            buffer: buf,
                                            target: (HEADER_LEN + n) as nat,
                                            opcode: op,
                                            body_start: HEADER_LEN as nat,
                                        },
                                        None,
                                    ),
                                )
                            }
                        },
                        LengthPolicy::SentinelVariable => Ok(
                            (
                                FramerView {
                                    state: FrameState::AwaitingLengthField,
                                    buffer: buf,
                                    target: LENGTH_HEADER_LEN as nat,
                                    opcode: op,
                                    body_start: LENGTH_HEADER_LEN as nat,
                                },
                                None,
                            ),
                        ),
                    }
                }
            },
            FrameState::AwaitingLengthField => {
                let total = le16(buf, 2);
                if total < LENGTH_HEADER_LEN {
                    Err(FrameError::LengthTooShort(total as u16))
                } else if total == LENGTH_HEADER_LEN {
                    Ok((initial_view(), Some((v.opcode, Seq::empty()))))
                } else if total > MAX_PACKET_LEN {
                    Err(FrameError::LengthTooLong(total as usize))
                } else {
                    Ok(
                        (
                            FramerView {
                                state: FrameState::AwaitingBody,
                                buffer: buf,
                                target: total as nat,
                                ..v
                            },
                            None,
                        ),
                    )
                }
            },
            FrameState::AwaitingBody => Ok(
                (initial_view(), Some((v.opcode, buf.subrange(v.body_start as int, buf.len() as int)))),
            ),
        }
    }
}

/// The packet list that `o` stands for.
pub open spec fn opt_seq(o: Option<(u16, Seq<u8>)>) -> Seq<(u16, Seq<u8>)> {
    match o {
        Some(f) => seq![f],
        None => Seq::empty(),
    }
}

/// What the bytes `s` do to a framer in state `v`: the state after them and the
/// packets they complete, or the error that stops the stream.
pub open spec fn run(table: Map<u16, LengthPolicy>, v: FramerView, s: Seq<u8>) -> Result<
    (FramerView, Seq<(u16, Seq<u8>)>),
    FrameError,
>
    decreases s.len(),
{
    if s.len() == 0 {
        Ok((v, Seq::empty()))
    } else {
        match run(table, v, s.drop_last()) {
            Err(e) => Err(e),
            Ok((v1, fs)) => match step(table, v1, s.last()) {
                Err(e) => Err(e),
                Ok((v2, o)) => Ok((v2, fs + opt_seq(o))),
            },
        }
    }
}

/// Feeds `s` after an earlier result `r`: the packets add up, an error stays.
pub open spec fn then_run(
    table: Map<u16, LengthPolicy>,
    r: Result<(FramerView, Seq<(u16, Seq<u8>)>), FrameError>,
    s: Seq<u8>,
) -> Result<(FramerView, Seq<(u16, Seq<u8>)>), FrameError> {
    match r {
        Err(e) => Err(e),
        Ok((v1, fs)) => match run(table, v1, s) {
            Err(e) => Err(e),
            Ok((v2, gs)) => Ok((v2, fs + gs)),
        },
    }
}

/// Feeding a stream in two reads gives what feeding it in one does: the same packets in
/// the same order, the same state after, or the same error.
pub proof fn lemma_run_split(table: Map<u16, LengthPolicy>, v: FramerView, a: Seq<u8>, b: Seq<u8>)
    ensures
        run(table, v, a + b) == then_run(table, run(table, v, a), b),
    decreases b.len(),
{
    if b.len() == 0 {
        assert(a + b =~= a);
        match run(table, v, a) {
            Ok((v1, fs)) => {
                assert(fs + Seq::<(u16, Seq<u8>)>::empty() =~= fs);
            },
            Err(_) => {},
        }
    } else {
        assert((a + b).drop_last() =~= a + b.drop_last());
        assert((a + b).last() == b.last());
        lemma_run_split(table, v, a, b.drop_last());
        match run(table, v, a) {
            Ok((v1, fs)) => {
                match run(table, v1, b.drop_last()) {
                    Ok((v2, gs)) => {
                        match step(table, v2, b.last()) {
                            Ok((v3, o)) => {
                                assert(fs + (gs + opt_seq(o)) =~= (fs + gs) + opt_seq(o));
                            },
                            Err(_) => {},
                        }
                    },
                    Err(_) => {},
                }
            },
            Err(_) => {},
        }
    }
}

/// An error on a prefix of a stream is the error of the whole stream.
pub proof fn lemma_run_error_stays(table: Map<u16, LengthPolicy>, v: FramerView, s: Seq<u8>, k: int)
    requires
        0 <= k <= s.len(),
        run(table, v, s.subrange(0, k)) is Err,
    ensures
        run(table, v, s) == run(table, v, s.subrange(0, k)),
{
    lemma_run_split(table, v, s.subrange(0, k), s.subrange(k, s.len() as int));
    assert(s.subrange(0, k) + s.subrange(k, s.len() as int) =~= s);
}

/// Feeding `b` after `a` is feeding `a + b`.
pub proof fn lemma_then_run_assoc(
    table: Map<u16, LengthPolicy>,
    r: Result<(FramerView, Seq<(u16, Seq<u8>)>), FrameError>,
    a: Seq<u8>,
    b: Seq<u8>,
)
    ensures
        then_run(table, then_run(table, r, a), b) == then_run(table, r, a + b),
{
    match r {
        Ok((v, fs)) => {
            lemma_run_split(table, v, a, b);
            match run(table, v, a) {
                Ok((v1, gs)) => {
                    match run(table, v1, b) {
                        Ok((v2, hs)) => {
                            assert((fs + gs) + hs =~= fs + (gs + hs));
                        },
                        Err(_) => {},
                    }
                },
                Err(_) => {},
            }
        },
        Err(_) => {},
    }
}

/// The result of feeding the reads `chunks` one after another.
pub open spec fn feed_chunks(
    table: Map<u16, LengthPolicy>,
    r: Result<(FramerView, Seq<(u16, Seq<u8>)>), FrameError>,
    chunks: Seq<Seq<u8>>,
) -> Result<(FramerView, Seq<(u16, Seq<u8>)>), FrameError>
    decreases chunks.len(),
{
    if chunks.len() == 0 {
        r
    } else {
        feed_chunks(table, then_run(table, r, chunks[0]), chunks.drop_first())
    }
}

/// However a stream is cut into reads, the framer gives the same packets, ends in the same
/// state, or stops with the same error as when the stream comes in one read.
pub proof fn lemma_chunking(table: Map<u16, LengthPolicy>, v: FramerView, chunks: Seq<Seq<u8>>)
    ensures
        feed_chunks(table, Ok((v, Seq::empty())), chunks) == run(table, v, chunks.flatten()),
{
    lemma_feed_chunks(table, Ok((v, Seq::empty())), chunks);
    match run(table, v, chunks.flatten()) {
        Ok((v2, gs)) => {
            assert(Seq::<(u16, Seq<u8>)>::empty() + gs =~= gs);
        },
        Err(_) => {},
    }
}

proof fn lemma_feed_chunks(
    table: Map<u16, LengthPolicy>,
    r: Result<(FramerView, Seq<(u16, Seq<u8>)>), FrameError>,
    chunks: Seq<Seq<u8>>,
)
    ensures
        feed_chunks(table, r, chunks) == then_run(table, r, chunks.flatten()),
    decreases chunks.len(),
{
    if chunks.len() == 0 {
        match r {
            Ok((v, fs)) => {
                assert(fs + Seq::<(u16, Seq<u8>)>::empty() =~= fs);
            },
            Err(_) => {},
        }
    } else {
        lemma_feed_chunks(table, then_run(table, r, chunks[0]), chunks.drop_first());
        lemma_then_run_assoc(table, r, chunks[0], chunks.drop_first().flatten());
        assert(chunks.flatten() == chunks[0] + chunks.drop_first().flatten());
    }
}

/// The result of one more byte after `s`.
proof fn lemma_run_push(table: Map<u16, LengthPolicy>, v: FramerView, s: Seq<u8>, b: u8)
    ensures
        run(table, v, s.push(b)) == match run(table, v, s) {
            Err(e) => Err(e),
            Ok((v1, fs)) => match step(table, v1, b) {
                Err(e) => Err(e),
                Ok((v2, o)) => Ok((v2, fs + opt_seq(o))),
            },
        },
{
    assert(s.push(b).drop_last() =~= s);
}

/// A framer that waits for the rest of a packet takes the bytes before the last without
/// giving a packet, and gives the whole packet with the last.
proof fn lemma_body(table: Map<u16, LengthPolicy>, v: FramerView, p: Seq<u8>, k: int)
    requires
        view_wf(v),
        v.state == FrameState::AwaitingBody,
        v.buffer.len() + p.len() == v.target,
        0 <= k <= p.len(),
    ensures
        k < p.len() ==> run(table, v, p.subrange(0, k)) == Ok::<(FramerView, Seq<(u16, Seq<u8>)>), FrameError>(
            (FramerView { buffer: v.buffer + p.subrange(0, k), ..v }, Seq::empty()),
        ),
        k == p.len() ==> run(table, v, p) == Ok::<(FramerView, Seq<(u16, Seq<u8>)>), FrameError>(
            (initial_view(), seq![(v.opcode, (v.buffer + p).subrange(v.body_start as int, v.target as int))]),
        ),
    decreases k,
{
    let none = Seq::<(u16, Seq<u8>)>::empty();
    if k == 0 {
        assert(p.subrange(0, 0) =~= Seq::<u8>::empty());
        assert(v.buffer + Seq::<u8>::empty() =~= v.buffer);
        assert(FramerView { buffer: v.buffer + p.subrange(0, 0), ..v } == v);
        assert(run(table, v, Seq::<u8>::empty()) == Ok::<(FramerView, Seq<(u16, Seq<u8>)>), FrameError>((v, none)));
    } else {
        lemma_body(table, v, p, k - 1);
        let prev = p.subrange(0, k - 1);
        let b = p[k - 1];
        assert(prev.push(b) =~= p.subrange(0, k));
        lemma_run_push(table, v, prev, b);
        let v1 = FramerView { buffer: v.buffer + prev, ..v };
        assert(run(table, v, prev) == Ok::<(FramerView, Seq<(u16, Seq<u8>)>), FrameError>((v1, none)));
        let buf = v1.buffer.push(b);
        assert(buf =~= v.buffer + p.subrange(0, k));
        if k < p.len() {
            assert(buf.len() < v1.target);
            assert(step(table, v1, b) == Ok::<(FramerView, Option<(u16, Seq<u8>)>), FrameError>((FramerView { buffer: buf, ..v1 }, None)));
            assert(none + opt_seq(None) =~= none);
        } else {
            assert(p.subrange(0, k) =~= p);
            assert(buf.len() == v1.target);
            let f = (v.opcode, buf.subrange(v.body_start as int, buf.len() as int));
            assert(step(table, v1, b) == Ok::<(FramerView, Option<(u16, Seq<u8>)>), FrameError>((initial_view(), Some(f))));
            assert(none + opt_seq(Some(f)) =~= seq![f]);
        }
    }
}

/// Where the first `k` bytes of `s` leave the framer with no packet, and `s` as a whole
/// gives exactly `f`.
pub open spec fn gives_one_at_end(
    table: Map<u16, LengthPolicy>,
    s: Seq<u8>,
    f: (u16, Seq<u8>),
) -> bool {
    &&& run(table, initial_view(), s) == Ok::<(FramerView, Seq<(u16, Seq<u8>)>), FrameError>(
        (initial_view(), seq![f]),
    )
    &&& forall|k: int|
        0 <= k < s.len() ==> #[trigger] run(table, initial_view(), s.subrange(0, k)) is Ok
            && run(table, initial_view(), s.subrange(0, k))->Ok_0.1 == Seq::<(u16, Seq<u8>)>::empty()
}

/// The two header bytes of `op` take a framer between packets to the state that
/// `op`'s length policy asks for; before the second nothing happens.
proof fn lemma_header(table: Map<u16, LengthPolicy>, op: u16)
    requires
        table.contains_key(op),
    ensures
        run(table, initial_view(), Seq::<u8>::empty()) == Ok::<(FramerView, Seq<(u16, Seq<u8>)>), FrameError>(
            (initial_view(), Seq::empty()),
        ),
        run(table, initial_view(), seq![le16_bytes(op)[0]]) == Ok::<(FramerView, Seq<(u16, Seq<u8>)>), FrameError>(
            (FramerView { buffer: seq![le16_bytes(op)[0]], ..initial_view() }, Seq::empty()),
        ),
        table[op] == LengthPolicy::Fixed(0) ==> run(table, initial_view(), le16_bytes(op))
            == Ok::<(FramerView, Seq<(u16, Seq<u8>)>), FrameError>((initial_view(), seq![(op, Seq::<u8>::empty())])),
        forall|n: u16| #![auto] table[op] == LengthPolicy::Fixed(n) && 0 < n && HEADER_LEN + n <= MAX_PACKET_LEN
            ==> run(table, initial_view(), le16_bytes(op)) == Ok::<(FramerView, Seq<(u16, Seq<u8>)>), FrameError>(
            (
                FramerView {
                    state: FrameState::AwaitingBody,
                    buffer: le16_bytes(op),
                    target: (HEADER_LEN + n) as nat,
                    opcode: op,
                    body_start: HEADER_LEN as nat,
                },
                Seq::empty(),
            ),
        ),
        table[op] == LengthPolicy::SentinelVariable ==> run(table, initial_view(), le16_bytes(op))
            == Ok::<(FramerView, Seq<(u16, Seq<u8>)>), FrameError>(
            (
                FramerView {
                    state: FrameState::AwaitingLengthField,
                    buffer: le16_bytes(op),
                    target: LENGTH_HEADER_LEN as nat,
                    opcode: op,
                    body_start: LENGTH_HEADER_LEN as nat,
                },
                Seq::empty(),
            ),
        ),
{
    let none = Seq::<(u16, Seq<u8>)>::empty();
    let h = le16_bytes(op);
    lemma_le16_bytes(op);
    let e = Seq::<u8>::empty();
    assert(run(table, initial_view(), e) == Ok::<(FramerView, Seq<(u16, Seq<u8>)>), FrameError>((initial_view(), none)));
    lemma_run_push(table, initial_view(), e, h[0]);
    assert(e.push(h[0]) =~= seq![h[0]]);
    assert(none + opt_seq(None) =~= none);
    let v1 = FramerView { buffer: seq![h[0]], ..initial_view() };
    lemma_run_push(table, initial_view(), seq![h[0]], h[1]);
    assert(seq![h[0]].push(h[1]) =~= h);
    assert(v1.buffer.push(h[1]) =~= h);
    assert(none + opt_seq(Some((op, e))) =~= seq![(op, e)]);
}

/// A packet of an opcode with a fixed length, fed to a framer between packets, gives
/// exactly that packet, with its last byte and not before, and leaves the framer between
/// packets.
pub proof fn lemma_fixed_packet(table: Map<u16, LengthPolicy>, op: u16, payload: Seq<u8>)
    requires
        table.contains_key(op),
        HEADER_LEN + payload.len() <= MAX_PACKET_LEN,
        table[op] == LengthPolicy::Fixed(payload.len() as u16),
    ensures
        gives_one_at_end(table, le16_bytes(op) + payload, (op, payload)),
{
    let none = Seq::<(u16, Seq<u8>)>::empty();
    let h = le16_bytes(op);
    let s = h + payload;
    lemma_header(table, op);
    assert(s.subrange(0, 0) =~= Seq::<u8>::empty());
    assert(s.subrange(0, 1) =~= seq![h[0]]);
    if payload.len() == 0 {
        assert(s =~= h);
        assert(payload =~= Seq::<u8>::empty());
    } else {
        let n = payload.len() as u16;
        let v = FramerView {
            state: FrameState::AwaitingBody,
            buffer: h,
            target: (HEADER_LEN + n) as nat,
            opcode: op,
            body_start: HEADER_LEN as nat,
        };
        assert(run(table, initial_view(), h) == Ok::<(FramerView, Seq<(u16, Seq<u8>)>), FrameError>((v, none)));
        lemma_body(table, v, payload, payload.len() as int);
        lemma_run_split(table, initial_view(), h, payload);
        assert(s.subrange(2, 2 + payload.len() as int) =~= payload);
        assert(none + seq![(op, payload)] =~= seq![(op, payload)]);
        assert forall|k: int| 0 <= k < s.len() implies #[trigger] run(table, initial_view(), s.subrange(0, k)) is Ok
            && run(table, initial_view(), s.subrange(0, k))->Ok_0.1 == none by {
            if k >= 2 {
                lemma_body(table, v, payload, k - 2);
                lemma_run_split(table, initial_view(), h, payload.subrange(0, k - 2));
                assert(s.subrange(0, k) =~= h + payload.subrange(0, k - 2));
                assert(none + none =~= none);
            }
        }
    }
}

/// A packet of an opcode whose length the packet states, fed to a framer between packets,
/// gives exactly that packet once the stated number of bytes has come, and not before;
/// one with no payload comes out with its length field.
pub proof fn lemma_sentinel_packet(table: Map<u16, LengthPolicy>, op: u16, payload: Seq<u8>)
    requires
        table.contains_key(op),
        table[op] == LengthPolicy::SentinelVariable,
        LENGTH_HEADER_LEN + payload.len() <= MAX_PACKET_LEN,
    ensures
        gives_one_at_end(
            table,
            le16_bytes(op) + le16_bytes((LENGTH_HEADER_LEN + payload.len()) as u16) + payload,
            (op, payload),
        ),
{
    let none = Seq::<(u16, Seq<u8>)>::empty();
    let total = (LENGTH_HEADER_LEN + payload.len()) as u16;
    let h = le16_bytes(op);
    let l = le16_bytes(total);
    let hl = h + l;
    let s = hl + payload;
    lemma_header(table, op);
    lemma_le16_bytes(total);
    let v2 = FramerView {
        state: FrameState::AwaitingLengthField,
        buffer: h,
        target: LENGTH_HEADER_LEN as nat,
        opcode: op,
        body_start: LENGTH_HEADER_LEN as nat,
    };
    // the first byte of the length field
    lemma_run_push(table, initial_view(), h, l[0]);
    let h3 = h.push(l[0]);
    let v3 = FramerView { buffer: h3, ..v2 };
    assert(none + opt_seq(None) =~= none);
    assert(run(table, initial_view(), h3) == Ok::<(FramerView, Seq<(u16, Seq<u8>)>), FrameError>((v3, none)));
    // the second
    lemma_run_push(table, initial_view(), h3, l[1]);
    assert(h3.push(l[1]) =~= hl);
    assert(le16(hl, 2) == total) by {
        assert(hl[2] == l[0] && hl[3] == l[1]);
    }
    assert(s.subrange(0, 0) =~= Seq::<u8>::empty());
    assert(s.subrange(0, 1) =~= seq![h[0]]);
    assert(s.subrange(0, 2) =~= h);
    assert(s.subrange(0, 3) =~= h3);
    if payload.len() == 0 {
        assert(s =~= hl);
        assert(payload =~= Seq::<u8>::empty());
        assert(none + opt_seq(Some((op, payload))) =~= seq![(op, payload)]);
    } else {
        let v4 = FramerView { state: FrameState::AwaitingBody, buffer: hl, target: total as nat, ..v2 };
        assert(run(table, initial_view(), hl) == Ok::<(FramerView, Seq<(u16, Seq<u8>)>), FrameError>((v4, none)));
        lemma_body(table, v4, payload, payload.len() as int);
        lemma_run_split(table, initial_view(), hl, payload);
        assert(s.subrange(4, 4 + payload.len() as int) =~= payload);
        assert(none + seq![(op, payload)] =~= seq![(op, payload)]);
        assert forall|k: int| 0 <= k < s.len() implies #[trigger] run(table, initial_view(), s.subrange(0, k)) is Ok
            && run(table, initial_view(), s.subrange(0, k))->Ok_0.1 == none by {
            if k >= 4 {
                lemma_body(table, v4, payload, k - 4);
                lemma_run_split(table, initial_view(), hl, payload.subrange(0, k - 4));
                assert(s.subrange(0, k) =~= hl + payload.subrange(0, k - 4));
                assert(none + none =~= none);
            }
        }
    }
}

/// An opcode that the table does not know stops the stream with an error that names it,
/// as soon as its two bytes are in, whatever follows.
pub proof fn lemma_unknown_opcode(table: Map<u16, LengthPolicy>, op: u16, rest: Seq<u8>)
    requires
        !table.contains_key(op),
    ensures
        run(table, initial_view(), le16_bytes(op) + rest) == Err::<(FramerView, Seq<(u16, Seq<u8>)>), FrameError>(
            FrameError::UnknownOpcode(op),
        ),
{
    let none = Seq::<(u16, Seq<u8>)>::empty();
    let h = le16_bytes(op);
    lemma_le16_bytes(op);
    let e = Seq::<u8>::empty();
    assert(run(table, initial_view(), e) == Ok::<(FramerView, Seq<(u16, Seq<u8>)>), FrameError>((initial_view(), none)));
    lemma_run_push(table, initial_view(), e, h[0]);
    assert(e.push(h[0]) =~= seq![h[0]]);
    assert(none + opt_seq(None) =~= none);
    lemma_run_push(table, initial_view(), seq![h[0]], h[1]);
    assert(seq![h[0]].push(h[1]) =~= h);
    let s = h + rest;
    assert(s.subrange(0, 2) =~= h);
    lemma_run_error_stays(table, initial_view(), s, 2);
}

/// The packet, if any, as opcode and payload.
pub open spec fn opt_frame_view(o: Option<Frame>) -> Option<(u16, Seq<u8>)> {
    match o {
        Some(f) => Some(f.view()),
        None => None,
    }
}

/// The stream framer of one connection.
pub struct Framer {
    pub table: PacketLengthTable,
    pub state: FrameState,
    pub buffer: Vec<u8>,
    pub target: usize,
    pub opcode: u16,
    pub body_start: usize,
}

impl Framer {
    pub open spec fn view(&self) -> FramerView {
        FramerView {
            state: self.state,
            buffer: self.buffer@,
            target: self.target as nat,
            opcode: self.opcode,
            body_start: self.body_start as nat,
        }
    }

    pub open spec fn wf(&self) -> bool {
        view_wf(self.view())
    }

    /// A framer between packets, on the given length table.
    pub fn new(table: PacketLengthTable) -> (r: Framer)
        ensures
            r.wf(),
            r.view() == initial_view(),
            r.table.map() == table.map(),
    {
        Framer {
            table,
            state: FrameState::AwaitingHeader,
            buffer: Vec::new(),
            target: HEADER_LEN,
            opcode: 0,
            body_start: HEADER_LEN,
        }
    }

    fn reset(&mut self)
        ensures
            final(self).view() == initial_view(),
            final(self).table == old(self).table,
    {
        self.state = FrameState::AwaitingHeader;
        self.buffer = Vec::new();
        self.target = HEADER_LEN;
        self.opcode = 0;
        self.body_start = HEADER_LEN;
    }

    /// How many more bytes the framer needs before it decides again: the most that a
    /// read should ask for to stay within the packet in progress.
    pub fn wanted(&self) -> (r: usize)
        requires
            self.wf(),
        ensures
            r == self.view().target - self.view().buffer.len(),
            r > 0,
    {
        self.target - self.buffer.len()
    }

    /// Takes one byte of the stream.
    pub fn push_byte(&mut self, b: u8) -> (r: Result<Option<Frame>, FrameError>)
        requires
            old(self).wf(),
        ensures
            final(self).wf(),
            final(self).table.map() == old(self).table.map(),
            match step(old(self).table.map(), old(self).view(), b) {
                Ok((v2, o)) => r is Ok && final(self).view() == v2 && opt_frame_view(r->Ok_0) == o,
                Err(e) => r == Err::<Option<Frame>, FrameError>(e) && final(self).view()
                    == initial_view(),
            },
    {
        self.buffer.push(b);
        if self.buffer.len() < self.target {
            return Ok(None);
        }
        match self.state {
            FrameState::AwaitingHeader => {
                let op = get_le16(self.buffer.as_slice(), 0);
                match self.table.get(op) {
                    None => {
                        self.reset();
                        Err(FrameError::UnknownOpcode(op))
                    },
                    Some(LengthPolicy::Fixed(n)) => {
                        if n == 0 {
                            self.reset();
                            Ok(Some(Frame { opcode: op, payload: Vec::new() }))
                        } else if n as usize > MAX_PACKET_LEN - HEADER_LEN {
                            self.reset();
                            Err(FrameError::LengthTooLong(HEADER_LEN + n as usize))
                        } else {
                            self.state = FrameState::AwaitingBody;
                            self.target = HEADER_LEN + n as usize;
                            self.opcode = op;
                            self.body_start = HEADER_LEN;
                            Ok(None)
                        }
                    },
                    Some(LengthPolicy::SentinelVariable) => {
                        self.state = FrameState::AwaitingLengthField;
                        self.target = LENGTH_HEADER_LEN;
                        self.opcode = op;
                        self.body_start = LENGTH_HEADER_LEN;
                        Ok(None)
                    },
                }
            },
            FrameState::AwaitingLengthField => {
                let total = get_le16(self.buffer.as_slice(), 2);
                if (total as usize) < LENGTH_HEADER_LEN {
                    self.reset();
                    Err(FrameError::LengthTooShort(total))
                } else if total as usize == LENGTH_HEADER_LEN {
                    let op = self.opcode;
                    self.reset();
                    Ok(Some(Frame { opcode: op, payload: Vec::new() }))
                } else if total as usize > MAX_PACKET_LEN {
                    self.reset();
                    Err(FrameError::LengthTooLong(total as usize))
                } else {
                    self.state = FrameState::AwaitingBody;
                    self.target = total as usize;
                    Ok(None)
                }
            },
            FrameState::AwaitingBody => {
                let payload = copy_range(&self.buffer, self.body_start, self.buffer.len());
                let op = self.opcode;
                self.reset();
                Ok(Some(Frame { opcode: op, payload }))
            },
        }
    }

    /// Takes the bytes of one read, which may end anywhere in a packet or hold several:
    /// bytes past the end of a packet start the next one.
    pub fn push_bytes(&mut self, bytes: &[u8]) -> (r: Result<Vec<Frame>, FrameError>)
        requires
            old(self).wf(),
        ensures
            final(self).wf(),
            final(self).table.map() == old(self).table.map(),
            match run(old(self).table.map(), old(self).view(), bytes@) {
                Ok((v2, fs)) => r is Ok && final(self).view() == v2 && frames_view(r->Ok_0@) == fs,
                Err(e) => r == Err::<Vec<Frame>, FrameError>(e) && final(self).view() == initial_view(),
            },
    {
        let ghost v0 = self.view();
        let ghost t = self.table.map();
        let mut frames: Vec<Frame> = Vec::new();
        let mut i: usize = 0;
        assert(bytes@.subrange(0, 0) =~= Seq::<u8>::empty());
        assert(frames_view(frames@) =~= Seq::<(u16, Seq<u8>)>::empty());
        while i < bytes.len()
            invariant
                self.wf(),
                self.table.map() == t,
                t == old(self).table.map(),
                v0 == old(self).view(),
                i <= bytes@.len(),
                run(t, v0, bytes@.subrange(0, i as int)) is Ok,
                run(t, v0, bytes@.subrange(0, i as int))->Ok_0 == (self.view(), frames_view(frames@)),
            decreases bytes@.len() - i,
        {
            let r = self.push_byte(bytes[i]);
            proof {
                assert(bytes@.subrange(0, i + 1).drop_last() =~= bytes@.subrange(0, i as int));
                assert(bytes@.subrange(0, i + 1).last() == bytes@[i as int]);
            }
            match r {
                Err(e) => {
                    proof {
                        lemma_run_error_stays(t, v0, bytes@, i + 1);
                    }
                    return Err(e);
                },
                Ok(o) => {
                    let ghost old_frames = frames@;
                    match o {
                        Some(f) => {
                            frames.push(f);
                        },
                        None => {},
                    }
                    proof {
                        assert(frames_view(frames@) =~= frames_view(old_frames) + opt_seq(opt_frame_view(o)));
                    }
                },
            }
            i = i + 1;
        }
        assert(bytes@.subrange(0, i as int) =~= bytes@);
        Ok(frames)
    }
}

} // verus!
