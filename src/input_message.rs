//! The decoder: sequential little-endian reads over the payload of one packet.
use vstd::prelude::*;
use crate::bytes::{le16, le32, le64, get_le16, get_le32, get_le64, copy_range};

verus! {

/// Why a read from an [`InputMessage`] failed. A failed read leaves the decoder as it was.
#[derive(Debug, Clone, Copy, PartialEq, Eq, Structural)]
pub enum DecodeError {
    /// The read wanted more bytes than remain.
    OutOfBounds,
    /// A terminated string read met the end of the payload before a zero byte.
    Unterminated,
}

/// The bytes of `s` before its first zero; all of `s` when it holds none.
pub open spec fn until_nul(s: Seq<u8>) -> Seq<u8>
    decreases s.len(),
{
    if s.len() == 0 {
        s
    } else if s[0] == 0 {
        Seq::empty()
    } else {
        seq![s[0]] + until_nul(s.drop_first())
    }
}

/// The text that bytes stand for, one character per byte.
pub open spec fn latin1(s: Seq<u8>) -> Seq<char> {
    s.map_values(|b: u8| b as char)
}

/// Where the first `k` bytes of `s` are not zero and byte `k` is zero (or `k` is the
/// end), `until_nul` keeps exactly those `k` bytes.
pub proof fn lemma_until_nul(s: Seq<u8>, k: int)
    requires
        0 <= k <= s.len(),
        forall|j: int| 0 <= j < k ==> s[j] != 0,
        k == s.len() || s[k] == 0,
    ensures
        until_nul(s) == s.subrange(0, k),
    decreases k,
{
    if k == 0 {
        assert(s.subrange(0, 0) =~= Seq::<u8>::empty());
    } else {
        let t = s.drop_first();
        assert forall|j: int| 0 <= j < k - 1 implies t[j] != 0 by {
            assert(s[j + 1] != 0);
        }
        lemma_until_nul(t, k - 1);
        assert(seq![s[0]] + t.subrange(0, k - 1) =~= s.subrange(0, k));
    }
}

/// A fixed-width string field reads back as the text written into it: a text with no
/// zero byte, followed by padding that starts with a zero, whatever the rest of the
/// padding holds.
pub proof fn lemma_fixed_string_round_trip(text: Seq<u8>, padding: Seq<u8>)
    requires
        forall|i: int| 0 <= i < text.len() ==> text[i] != 0,
        padding.len() > 0,
        padding[0] == 0,
    ensures
        until_nul(text + padding) == text,
{
    let s = text + padding;
    lemma_until_nul(s, text.len() as int);
    assert(s.subrange(0, text.len() as int) =~= text);
}

/// The bytes of `data` from `start` up to the first zero before `end`, and the index of
/// that zero if there is one.
fn take_until_nul(data: &Vec<u8>, start: usize, end: usize) -> (r: (Vec<u8>, Option<usize>))
    requires
        start <= end <= data@.len(),
    ensures
        r.0@ == until_nul(data@.subrange(start as int, end as int)),
        match r.1 {
            Some(z) => start <= z < end && data@[z as int] == 0 && z == start + r.0@.len(),
            None => !data@.subrange(start as int, end as int).contains(0u8),
        },
{
    let ghost s = data@.subrange(start as int, end as int);
    let mut out: Vec<u8> = Vec::new();
    let mut i: usize = start;
    while i < end
        invariant
            start <= i <= end <= data@.len(),
            s == data@.subrange(start as int, end as int),
            out@ == data@.subrange(start as int, i as int),
            forall|j: int| start <= j < i ==> data@[j] != 0,
        decreases end - i,
    {
        let b = data[i];
        if b == 0 {
            proof {
                lemma_until_nul(s, i - start);
                assert(s.subrange(0, i - start) =~= out@);
            }
            return (out, Some(i));
        }
        out.push(b);
        i = i + 1;
        assert(out@ =~= data@.subrange(start as int, i as int));
    }
    proof {
        lemma_until_nul(s, s.len() as int);
        assert(s.subrange(0, s.len() as int) =~= out@);
        assert forall|j: int| 0 <= j < s.len() implies s[j] != 0u8 by {
            assert(data@[start + j] != 0);
        }
    }
    (out, None)
}

/// Relies on `String::push`: it appends one character at the end.
#[verifier::external_body]
fn push_char(s: &mut String, c: char)
    ensures
        final(s)@ == old(s)@.push(c),
{
    s.push(c)
}

/// The text that `b` stands for, one character per byte.
pub fn latin1_string(b: &Vec<u8>) -> (s: String)
    ensures
        s@ == latin1(b@),
{
    let mut s = String::new();
    let mut i: usize = 0;
    while i < b.len()
        invariant
            i <= b@.len(),
            s@ == latin1(b@.subrange(0, i as int)),
        decreases b@.len() - i,
    {
        push_char(&mut s, b[i] as char);
        i = i + 1;
        assert(latin1(b@.subrange(0, i as int)) =~= latin1(b@.subrange(0, i - 1)).push(b@[i - 1] as char));
    }
    assert(b@.subrange(0, i as int) =~= b@);
    s
}

/// A positioned view over the payload of one packet.
pub struct InputMessage {
    pub data: Vec<u8>,
    pub length: usize,
    pub position: usize,
}

impl InputMessage {
    /// The length agrees with the data and the position lies within it.
    pub open spec fn wf(&self) -> bool {
        self.length == self.data@.len() && self.position <= self.length
    }

    pub open spec fn bytes(&self) -> Seq<u8> {
        self.data@
    }

    pub open spec fn pos(&self) -> int {
        self.position as int
    }

    /// At least `n` bytes remain.
    pub open spec fn has(&self, n: int) -> bool {
        self.position + n <= self.data@.len()
    }

    /// The bytes from the position to the end.
    pub open spec fn rest(&self) -> Seq<u8> {
        self.data@.subrange(self.position as int, self.data@.len() as int)
    }

    pub fn new(data: Vec<u8>) -> (r: InputMessage)
        ensures
            r.wf(),
            r.bytes() == data@,
            r.pos() == 0,
    {
        let length = data.len();
        InputMessage { data, length, position: 0 }
    }

    pub fn read_u8(&mut self) -> (r: Result<u8, DecodeError>)
        requires
            old(self).wf(),
        ensures
            final(self).wf(),
            final(self).bytes() == old(self).bytes(),
            match r {
                Ok(v) => old(self).has(1) && v == old(self).bytes()[old(self).pos()]
                    && final(self).pos() == old(self).pos() + 1,
                Err(e) => !old(self).has(1) && e == DecodeError::OutOfBounds
                    && final(self).pos() == old(self).pos(),
            },
    {
        if self.length - self.position < 1 {
            return Err(DecodeError::OutOfBounds);
        }
        let value = self.data[self.position];
        self.position = self.position + 1;
        Ok(value)
    }

    pub fn read_u16(&mut self) -> (r: Result<u16, DecodeError>)
        requires
            old(self).wf(),
        ensures
            final(self).wf(),
            final(self).bytes() == old(self).bytes(),
            match r {
                Ok(v) => old(self).has(2) && v as int == le16(old(self).bytes(), old(self).pos())
                    && final(self).pos() == old(self).pos() + 2,
                Err(e) => !old(self).has(2) && e == DecodeError::OutOfBounds
                    && final(self).pos() == old(self).pos(),
            },
    {
        if self.length - self.position < 2 {
            return Err(DecodeError::OutOfBounds);
        }
        let value = get_le16(self.data.as_slice(), self.position);
        self.position = self.position + 2;
        Ok(value)
    }

    pub fn read_u32(&mut self) -> (r: Result<u32, DecodeError>)
        requires
            old(self).wf(),
        ensures
            final(self).wf(),
            final(self).bytes() == old(self).bytes(),
            match r {
                Ok(v) => old(self).has(4) && v as int == le32(old(self).bytes(), old(self).pos())
                    && final(self).pos() == old(self).pos() + 4,
                Err(e) => !old(self).has(4) && e == DecodeError::OutOfBounds
                    && final(self).pos() == old(self).pos(),
            },
    {
        if self.length - self.position < 4 {
            return Err(DecodeError::OutOfBounds);
        }
        let value = get_le32(self.data.as_slice(), self.position);
        self.position = self.position + 4;
        Ok(value)
    }

    pub fn read_u64(&mut self) -> (r: Result<u64, DecodeError>)
        requires
            old(self).wf(),
        ensures
            final(self).wf(),
            final(self).bytes() == old(self).bytes(),
            match r {
                Ok(v) => old(self).has(8) && v as int == le64(old(self).bytes(), old(self).pos())
                    && final(self).pos() == old(self).pos() + 8,
                Err(e) => !old(self).has(8) && e == DecodeError::OutOfBounds
                    && final(self).pos() == old(self).pos(),
            },
    {
        if self.length - self.position < 8 {
            return Err(DecodeError::OutOfBounds);
        }
        let value = get_le64(self.data.as_slice(), self.position);
        self.position = self.position + 8;
        Ok(value)
    }

    /// Reads `n` raw bytes.
    pub fn read_bytes(&mut self, n: usize) -> (r: Result<Vec<u8>, DecodeError>)
        requires
            old(self).wf(),
        ensures
            final(self).wf(),
            final(self).bytes() == old(self).bytes(),
            match r {
                Ok(v) => old(self).has(n as int)
                    && v@ == old(self).bytes().subrange(old(self).pos(), old(self).pos() + n)
                    && final(self).pos() == old(self).pos() + n,
                Err(e) => !old(self).has(n as int) && e == DecodeError::OutOfBounds
                    && final(self).pos() == old(self).pos(),
            },
    {
        if self.length - self.position < n {
            return Err(DecodeError::OutOfBounds);
        }
        let start = self.position;
        let out = copy_range(&self.data, start, start + n);
        self.position = start + n;
        Ok(out)
    }

    /// Reads a string. With `Some(n)` the field is `n` bytes wide: the read always
    /// consumes `n` bytes and the value ends at the first zero among them. With `None`
    /// the value runs up to a zero byte, which the read consumes too; a payload that
    /// ends before one is an error.
    pub fn read_string(&mut self, n: Option<usize>) -> (r: Result<String, DecodeError>)
        requires
            old(self).wf(),
        ensures
            final(self).wf(),
            final(self).bytes() == old(self).bytes(),
            n is Some ==> match r {
                Ok(s) => old(self).has(n->0 as int)
                    && s@ == latin1(until_nul(old(self).bytes().subrange(old(self).pos(), old(self).pos() + n->0)))
                    && final(self).pos() == old(self).pos() + n->0,
                Err(e) => !old(self).has(n->0 as int) && e == DecodeError::OutOfBounds
                    && final(self).pos() == old(self).pos(),
            },
            n is None ==> match r {
                Ok(s) => old(self).rest().contains(0u8)
                    && s@ == latin1(until_nul(old(self).rest()))
                    && final(self).pos() == old(self).pos() + until_nul(old(self).rest()).len() + 1,
                Err(e) => !old(self).rest().contains(0u8) && e == DecodeError::Unterminated
                    && final(self).pos() == old(self).pos(),
            },
    {
        match n {
            Some(width) => {
                if self.length - self.position < width {
                    return Err(DecodeError::OutOfBounds);
                }
                let (value, _) = take_until_nul(&self.data, self.position, self.position + width);
                self.position = self.position + width;
                Ok(latin1_string(&value))
            },
            None => {
                let (value, nul) = take_until_nul(&self.data, self.position, self.length);
                match nul {
                    Some(z) => {
                        assert(self.rest()[z - self.position] == 0u8);
                        self.position = z + 1;
                        Ok(latin1_string(&value))
                    },
                    None => Err(DecodeError::Unterminated),
                }
            },
        }
    }

    pub fn is_eof(&self) -> (r: bool)
        requires
            self.wf(),
        ensures
            r == (self.pos() >= self.bytes().len()),
    {
        self.position >= self.length
    }

    /// The number of bytes left to read.
    pub fn remaining(&self) -> (r: usize)
        requires
            self.wf(),
        ensures
            r == self.bytes().len() - self.pos(),
    {
        self.length - self.position
    }

    /// Moves past `bytes` bytes without reading them.
    pub fn skip_bytes(&mut self, bytes: usize) -> (r: Result<(), DecodeError>)
        requires
            old(self).wf(),
        ensures
            final(self).wf(),
            final(self).bytes() == old(self).bytes(),
            match r {
                Ok(_) => old(self).has(bytes as int) && final(self).pos() == old(self).pos() + bytes,
                Err(e) => !old(self).has(bytes as int) && e == DecodeError::OutOfBounds
                    && final(self).pos() == old(self).pos(),
            },
    {
        if self.length - self.position < bytes {
            return Err(DecodeError::OutOfBounds);
        }
        self.position = self.position + bytes;
        Ok(())
    }
}

} // verus!
