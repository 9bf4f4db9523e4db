//! The encoder: sequential writes into a bounded send buffer.
use vstd::prelude::*;
use vstd::string::StringSliceAdditionalSpecFns;
use crate::input_message::{until_nul, lemma_fixed_string_round_trip};

verus! {

/// The capacity of a send buffer in bytes.
pub const MAX_MESSAGE_LEN: usize = 1024;

/// An unsigned integer that has a fixed-width wire form.
pub trait WireInt: Sized {
    /// The bytes of the value, least significant first.
    spec fn le_bytes(&self) -> Seq<u8>;

    /// The bytes of the value, most significant first.
    spec fn be_bytes(&self) -> Seq<u8>;

    fn to_le(&self) -> (r: Vec<u8>)
        ensures
            r@ == self.le_bytes(),
            r@.len() <= 8,
    ;

    fn to_be(&self) -> (r: Vec<u8>)
        ensures
            r@ == self.be_bytes(),
            r@.len() == self.le_bytes().len(),
    ;
}

impl WireInt for u8 {
    open spec fn le_bytes(&self) -> Seq<u8> {
        seq![*self]
    }

    open spec fn be_bytes(&self) -> Seq<u8> {
        seq![*self]
    }

    fn to_le(&self) -> (r: Vec<u8>) {
        vec![*self]
    }

    fn to_be(&self) -> (r: Vec<u8>) {
        vec![*self]
    }
}

impl WireInt for u16 {
    open spec fn le_bytes(&self) -> Seq<u8> {
        seq![(*self % 256) as u8, (*self / 256) as u8]
    }

    open spec fn be_bytes(&self) -> Seq<u8> {
        seq![(*self / 256) as u8, (*self % 256) as u8]
    }

    fn to_le(&self) -> (r: Vec<u8>) {
        vec![(*self % 256) as u8, (*self / 256) as u8]
    }

    fn to_be(&self) -> (r: Vec<u8>) {
        vec![(*self / 256) as u8, (*self % 256) as u8]
    }
}

impl WireInt for u32 {
    open spec fn le_bytes(&self) -> Seq<u8> {
        seq![
            (*self % 256) as u8,
            ((*self / 0x100) % 256) as u8,
            ((*self / 0x10000) % 256) as u8,
            (*self / 0x1000000) as u8,
        ]
    }

    open spec fn be_bytes(&self) -> Seq<u8> {
        seq![
            (*self / 0x1000000) as u8,
            ((*self / 0x10000) % 256) as u8,
            ((*self / 0x100) % 256) as u8,
            (*self % 256) as u8,
        ]
    }

    fn to_le(&self) -> (r: Vec<u8>) {
        let v = *self;
        vec![(v % 256) as u8, ((v / 0x100) % 256) as u8, ((v / 0x10000) % 256) as u8, (v / 0x1000000) as u8]
    }

    fn to_be(&self) -> (r: Vec<u8>) {
        let v = *self;
        vec![(v / 0x1000000) as u8, ((v / 0x10000) % 256) as u8, ((v / 0x100) % 256) as u8, (v % 256) as u8]
    }
}

impl WireInt for u64 {
    open spec fn le_bytes(&self) -> Seq<u8> {
        seq![
            (*self % 256) as u8,
            ((*self / 0x100) % 256) as u8,
            ((*self / 0x10000) % 256) as u8,
            ((*self / 0x1000000) % 256) as u8,
            ((*self / 0x100000000) % 256) as u8,
            ((*self / 0x10000000000) % 256) as u8,
            ((*self / 0x1000000000000) % 256) as u8,
            (*self / 0x100000000000000) as u8,
        ]
    }

    open spec fn be_bytes(&self) -> Seq<u8> {
        self.le_bytes().reverse()
    }

    fn to_le(&self) -> (r: Vec<u8>) {
        let v = *self;
        vec![
            (v % 256) as u8,
            ((v / 0x100) % 256) as u8,
            ((v / 0x10000) % 256) as u8,
            ((v / 0x1000000) % 256) as u8,
            ((v / 0x100000000) % 256) as u8,
            ((v / 0x10000000000) % 256) as u8,
            ((v / 0x1000000000000) % 256) as u8,
            (v / 0x100000000000000) as u8,
        ]
    }

    fn to_be(&self) -> (r: Vec<u8>) {
        let v = *self;
        let r = vec![
            (v / 0x100000000000000) as u8,
            ((v / 0x1000000000000) % 256) as u8,
            ((v / 0x10000000000) % 256) as u8,
            ((v / 0x100000000) % 256) as u8,
            ((v / 0x1000000) % 256) as u8,
            ((v / 0x10000) % 256) as u8,
            ((v / 0x100) % 256) as u8,
            (v % 256) as u8,
        ];
        assert(r@ =~= self.le_bytes().reverse());
        r
    }
}

/// Why a write to a [`NetworkMessage`] failed. A failed write leaves the message as it was.
#[derive(Debug, Clone, Copy, PartialEq, Eq, Structural)]
pub enum EncodeError {
    /// The write would take the message past its capacity.
    Overflow,
    /// A backpatch named bytes that have not been written.
    OutOfRange,
    /// A string does not fit its fixed-width field together with its terminator.
    TooLong,
}

/// `n` zero bytes.
pub open spec fn zeros(n: nat) -> Seq<u8> {
    Seq::new(n, |i: int| 0u8)
}

/// A fixed-width field holding `text`: the text, then zeros up to `width`.
pub open spec fn fixed_field(text: Seq<u8>, width: nat) -> Seq<u8> {
    text + zeros((width - text.len()) as nat)
}

/// The bytes of each message of a list.
pub open spec fn messages_bytes(ms: Seq<NetworkMessage>) -> Seq<Seq<u8>> {
    ms.map_values(|m: NetworkMessage| m.bytes())
}

/// An outgoing packet under construction.
pub struct NetworkMessage {
    pub buffer: Vec<u8>,
}

impl NetworkMessage {
    /// The message stays within its capacity.
    pub open spec fn wf(&self) -> bool {
        self.buffer@.len() <= MAX_MESSAGE_LEN
    }

    /// The bytes written so far.
    pub open spec fn bytes(&self) -> Seq<u8> {
        self.buffer@
    }

    pub fn new() -> (r: NetworkMessage)
        ensures
            r.wf(),
            r.bytes() == Seq::<u8>::empty(),
    {
        NetworkMessage { buffer: Vec::new() }
    }

    /// The number of bytes written so far.
    pub fn length(&self) -> (r: usize)
        ensures
            r == self.bytes().len(),
    {
        self.buffer.len()
    }

    /// The bytes written so far, to be sent.
    pub fn as_slice(&self) -> (r: &[u8])
        ensures
            r@ == self.bytes(),
    {
        self.buffer.as_slice()
    }

    /// Writes raw bytes.
    pub fn add_bytes(&mut self, more: &[u8]) -> (r: Result<(), EncodeError>)
        requires
            old(self).wf(),
        ensures
            final(self).wf(),
            match r {
                Ok(_) => old(self).bytes().len() + more@.len() <= MAX_MESSAGE_LEN
                    && final(self).bytes() == old(self).bytes() + more@,
                Err(e) => old(self).bytes().len() + more@.len() > MAX_MESSAGE_LEN
                    && e == EncodeError::Overflow && final(self).bytes() == old(self).bytes(),
            },
    {
        if more.len() > MAX_MESSAGE_LEN - self.buffer.len() {
            return Err(EncodeError::Overflow);
        }
        let ghost start = self.buffer@;
        let mut i: usize = 0;
        while i < more.len()
            invariant
                i <= more@.len(),
                start.len() + more@.len() <= MAX_MESSAGE_LEN,
                self.buffer@ == start + more@.subrange(0, i as int),
            decreases more@.len() - i,
        {
            self.buffer.push(more[i]);
            i = i + 1;
            assert(self.buffer@ =~= start + more@.subrange(0, i as int));
        }
        assert(more@.subrange(0, i as int) =~= more@);
        Ok(())
    }

    /// Writes `value` least significant byte first.
    pub fn add<T: WireInt>(&mut self, value: T) -> (r: Result<(), EncodeError>)
        requires
            old(self).wf(),
        ensures
            final(self).wf(),
            match r {
                Ok(_) => old(self).bytes().len() + value.le_bytes().len() <= MAX_MESSAGE_LEN
                    && final(self).bytes() == old(self).bytes() + value.le_bytes(),
                Err(e) => old(self).bytes().len() + value.le_bytes().len() > MAX_MESSAGE_LEN
                    && e == EncodeError::Overflow && final(self).bytes() == old(self).bytes(),
            },
    {
        let b = value.to_le();
        self.add_bytes(b.as_slice())
    }

    /// Writes `value` most significant byte first.
    pub fn add_be<T: WireInt>(&mut self, value: T) -> (r: Result<(), EncodeError>)
        requires
            old(self).wf(),
        ensures
            final(self).wf(),
            match r {
                Ok(_) => old(self).bytes().len() + value.be_bytes().len() <= MAX_MESSAGE_LEN
                    && final(self).bytes() == old(self).bytes() + value.be_bytes(),
                Err(e) => old(self).bytes().len() + value.be_bytes().len() > MAX_MESSAGE_LEN
                    && e == EncodeError::Overflow && final(self).bytes() == old(self).bytes(),
            },
    {
        let b = value.to_be();
        self.add_bytes(b.as_slice())
    }

    /// Advances past `count` bytes, which stay zero.
    pub fn skip_bytes(&mut self, count: usize) -> (r: Result<(), EncodeError>)
        requires
            old(self).wf(),
        ensures
            final(self).wf(),
            match r {
                Ok(_) => old(self).bytes().len() + count <= MAX_MESSAGE_LEN
                    && final(self).bytes() == old(self).bytes() + zeros(count as nat),
                Err(e) => old(self).bytes().len() + count > MAX_MESSAGE_LEN
                    && e == EncodeError::Overflow && final(self).bytes() == old(self).bytes(),
            },
    {
        if count > MAX_MESSAGE_LEN - self.buffer.len() {
            return Err(EncodeError::Overflow);
        }
        let ghost start = self.buffer@;
        let mut i: usize = 0;
        while i < count
            invariant
                i <= count,
                start.len() + count <= MAX_MESSAGE_LEN,
                self.buffer@ == start + zeros(i as nat),
            decreases count - i,
        {
            self.buffer.push(0u8);
            i = i + 1;
            assert(self.buffer@ =~= start + zeros(i as nat));
        }
        Ok(())
    }

    /// Writes the bytes of `string` and one zero byte after them.
    pub fn add_string(&mut self, string: &str) -> (r: Result<(), EncodeError>)
        requires
            old(self).wf(),
        ensures
            final(self).wf(),
            match r {
                Ok(_) => old(self).bytes().len() + string.spec_bytes().len() + 1 <= MAX_MESSAGE_LEN
                    && final(self).bytes() == old(self).bytes() + string.spec_bytes() + seq![0u8],
                Err(e) => old(self).bytes().len() + string.spec_bytes().len() + 1 > MAX_MESSAGE_LEN
                    && e == EncodeError::Overflow && final(self).bytes() == old(self).bytes(),
            },
    {
        let b = string.as_bytes();
        if b.len() >= MAX_MESSAGE_LEN - self.buffer.len() {
            return Err(EncodeError::Overflow);
        }
        let _ = self.add_bytes(b);
        let _ = self.add(0u8);
        Ok(())
    }

    /// Writes `string` into a field of `width` bytes, zero-padded. A string that leaves no
    /// room for a terminator is refused.
    pub fn add_fixed_string(&mut self, string: &str, width: usize) -> (r: Result<(), EncodeError>)
        requires
            old(self).wf(),
        ensures
            final(self).wf(),
            match r {
                Ok(_) => string.spec_bytes().len() < width && old(self).bytes().len() + width
                    <= MAX_MESSAGE_LEN && final(self).bytes() == old(self).bytes() + fixed_field(
                    string.spec_bytes(),
                    width as nat,
                ),
                Err(e) => final(self).bytes() == old(self).bytes() && if string.spec_bytes().len()
                    >= width {
                    e == EncodeError::TooLong
                } else {
                    old(self).bytes().len() + width > MAX_MESSAGE_LEN && e == EncodeError::Overflow
                },
            },
    {
        let b = string.as_bytes();
        if b.len() >= width {
            return Err(EncodeError::TooLong);
        }
        if width > MAX_MESSAGE_LEN - self.buffer.len() {
            return Err(EncodeError::Overflow);
        }
        let _ = self.add_bytes(b);
        let _ = self.skip_bytes(width - b.len());
        assert(self.bytes() =~= old(self).bytes() + fixed_field(string.spec_bytes(), width as nat));
        Ok(())
    }

    /// Rewrites the two bytes at `offset` with `value`, least significant first: the way a
    /// packet states its own length once its payload is known.
    pub fn patch_u16(&mut self, offset: usize, value: u16) -> (r: Result<(), EncodeError>)
        requires
            old(self).wf(),
        ensures
            final(self).wf(),
            match r {
                Ok(_) => offset + 2 <= old(self).bytes().len() && final(self).bytes()
                    == old(self).bytes().update(offset as int, (value % 256) as u8).update(
                    offset + 1,
                    (value / 256) as u8,
                ),
                Err(e) => offset + 2 > old(self).bytes().len() && e == EncodeError::OutOfRange
                    && final(self).bytes() == old(self).bytes(),
            },
    {
        if offset > self.buffer.len() || self.buffer.len() - offset < 2 {
            return Err(EncodeError::OutOfRange);
        }
        self.buffer.set(offset, (value % 256) as u8);
        self.buffer.set(offset + 1, (value / 256) as u8);
        Ok(())
    }
}

/// Text written into a fixed-width field by [`NetworkMessage::add_fixed_string`] reads back
/// whole from a field of the same width, as `InputMessage::read_string(Some(width))` reads it.
pub proof fn lemma_fixed_field_round_trip(text: Seq<u8>, width: nat)
    requires
        text.len() < width,
        forall|i: int| 0 <= i < text.len() ==> text[i] != 0,
    ensures
        fixed_field(text, width).len() == width,
        until_nul(fixed_field(text, width)) == text,
{
    lemma_fixed_string_round_trip(text, zeros((width - text.len()) as nat));
}

/// What the encoder writes for an integer, the decoder reads back: two, four and eight
/// bytes, least significant first.
pub proof fn lemma_le_round_trip(a: u16, b: u32, c: u64)
    ensures
        crate::bytes::le16(a.le_bytes(), 0) == a,
        crate::bytes::le32(b.le_bytes(), 0) == b,
        crate::bytes::le64(c.le_bytes(), 0) == c,
{
    assert((b % 256) as u8 as int + 256 * (((b / 0x100) % 256) as u8 as int) + 65536 * (((b / 0x10000)
        % 256) as u8 as int + 256 * ((b / 0x1000000) as u8 as int)) == b) by (bit_vector);
    assert((c % 256) as u8 as int + 256 * (((c / 0x100) % 256) as u8 as int) + 65536 * (((c / 0x10000)
        % 256) as u8 as int + 256 * (((c / 0x1000000) % 256) as u8 as int)) + 4294967296 * ((((c
        / 0x100000000) % 256) as u8 as int + 256 * (((c / 0x10000000000) % 256) as u8 as int))
        + 65536 * (((c / 0x1000000000000) % 256) as u8 as int + 256 * ((c / 0x100000000000000) as u8
        as int))) == c) by (bit_vector);
}

} // verus!
