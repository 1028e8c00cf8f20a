//! Sequential, fallible extraction of fixed-width values from a byte buffer.
//!
//! Every packet field is read through [`ByteReader`]. A read takes exactly the
//! bytes its width asks for, most significant byte first. A read that finds
//! too few bytes left yields `None` and leaves the reader exhausted: the
//! cursor only ever moves forward.

use vstd::prelude::*;
use crate::vector::{F32Bits, I16Vec2};
use crate::wire::{
    be_i16, be_u16, be_u32, byte_as_i8, i16_bytes, i16_from_be, lemma_i16_round_trip,
    lemma_u16_round_trip, lemma_u32_round_trip, u16_bytes, u16_from_be, u32_bytes, u32_from_be,
};

verus! {

/// The point whose big-endian coordinates start at `at`: `x`, then `y`.
pub open spec fn vec2_at(s: Seq<u8>, at: int) -> I16Vec2 {
    I16Vec2 { x: be_i16(s[at], s[at + 1]), y: be_i16(s[at + 2], s[at + 3]) }
}

/// The big-endian signed 16-bit value that starts at `at`.
pub open spec fn i16_at(s: Seq<u8>, at: int) -> i16 {
    be_i16(s[at], s[at + 1])
}

/// The big-endian unsigned 16-bit value that starts at `at`.
pub open spec fn u16_at(s: Seq<u8>, at: int) -> u16 {
    be_u16(s[at], s[at + 1])
}

/// The big-endian unsigned 32-bit value that starts at `at`.
pub open spec fn u32_at(s: Seq<u8>, at: int) -> u32 {
    be_u32(s[at], s[at + 1], s[at + 2], s[at + 3])
}

/// The flag at `at`: any nonzero byte is `true`.
pub open spec fn bool_at(s: Seq<u8>, at: int) -> bool {
    s[at] != 0
}

/// A point written at `at` is read back from there.
pub proof fn lemma_vec2_read_back(s: Seq<u8>, at: int, v: I16Vec2)
    requires
        0 <= at,
        at + 4 <= s.len(),
        s.subrange(at, at + 4) == i16_bytes(v.x) + i16_bytes(v.y),
    ensures
        vec2_at(s, at) == v,
{
    let part = s.subrange(at, at + 4);
    assert(part[0] == s[at] && part[1] == s[at + 1] && part[2] == s[at + 2] && part[3] == s[at
        + 3]);
    lemma_i16_round_trip(v.x);
    lemma_i16_round_trip(v.y);
}

/// A signed value written at `at` is read back from there.
pub proof fn lemma_i16_read_back(s: Seq<u8>, at: int, x: i16)
    requires
        0 <= at,
        at + 2 <= s.len(),
        s.subrange(at, at + 2) == i16_bytes(x),
    ensures
        i16_at(s, at) == x,
{
    let part = s.subrange(at, at + 2);
    assert(part[0] == s[at] && part[1] == s[at + 1]);
    lemma_i16_round_trip(x);
}

/// An unsigned value written at `at` is read back from there.
pub proof fn lemma_u16_read_back(s: Seq<u8>, at: int, x: u16)
    requires
        0 <= at,
        at + 2 <= s.len(),
        s.subrange(at, at + 2) == u16_bytes(x),
    ensures
        u16_at(s, at) == x,
{
    let part = s.subrange(at, at + 2);
    assert(part[0] == s[at] && part[1] == s[at + 1]);
    lemma_u16_round_trip(x);
}

/// An unsigned value written at `at` is read back from there.
pub proof fn lemma_u32_read_back(s: Seq<u8>, at: int, x: u32)
    requires
        0 <= at,
        at + 4 <= s.len(),
        s.subrange(at, at + 4) == u32_bytes(x),
    ensures
        u32_at(s, at) == x,
{
    let part = s.subrange(at, at + 4);
    assert(part[0] == s[at] && part[1] == s[at + 1] && part[2] == s[at + 2] && part[3] == s[at
        + 3]);
    lemma_u32_round_trip(x);
}

/// A forward-only cursor over a borrowed byte buffer.
pub struct ByteReader<'a> {
    bytes: &'a [u8],
    pos: usize,
}

impl<'a> ByteReader<'a> {
    #[verifier::type_invariant]
    spec fn in_bounds(self) -> bool {
        self.pos <= self.bytes@.len()
    }

    /// The whole buffer the reader was made over.
    pub closed spec fn source(self) -> Seq<u8> {
        self.bytes@
    }

    /// How many bytes have been consumed.
    pub closed spec fn position(self) -> nat {
        self.pos as nat
    }

    /// Whether `n` more bytes can be read.
    pub open spec fn has(self, n: nat) -> bool {
        self.position() + n <= self.source().len()
    }

    /// What a read of `n` bytes does to the reader `before`: the buffer is
    /// kept, and the cursor moves past the bytes read, or to the end when
    /// there were too few.
    pub open spec fn steps(self, before: Self, n: nat) -> bool {
        &&& self.source() == before.source()
        &&& before.position() <= self.source().len()
        &&& self.position() <= self.source().len()
        &&& self.position() == if before.has(n) {
            before.position() + n
        } else {
            before.source().len()
        }
    }

    pub fn new(bytes: &'a [u8]) -> (r: Self)
        ensures
            r.source() == bytes@,
            r.position() == 0,
    {
        ByteReader { bytes, pos: 0 }
    }

    /// The number of bytes not yet consumed.
    pub fn remaining_len(&self) -> (n: usize)
        ensures
            n == self.source().len() - self.position(),
            self.position() <= self.source().len(),
    {
        proof {
            use_type_invariant(self);
        }
        self.bytes.len() - self.pos
    }

    /// Moves the cursor past `n` bytes and returns where they start, or
    /// exhausts the reader when fewer than `n` are left.
    fn take(&mut self, n: usize) -> (start: Option<usize>)
        requires
            n <= 4,
        ensures
            final(self).steps(*old(self), n as nat),
            final(self).bytes == old(self).bytes,
            old(self).has(n as nat) ==> start == Some(old(self).pos),
            !old(self).has(n as nat) ==> start is None,
    {
        proof {
            use_type_invariant(&*self);
        }
        let len = self.bytes.len();
        if len - self.pos >= n {
            let start = self.pos;
            self.pos = start + n;
            Some(start)
        } else {
            self.pos = len;
            None
        }
    }

    pub fn next_u8(&mut self) -> (r: Option<u8>)
        ensures
            final(self).steps(*old(self), 1),
            old(self).has(1) ==> r == Some(old(self).source()[old(self).position() as int]),
            !old(self).has(1) ==> r is None,
    {
        match self.take(1) {
            Some(at) => Some(self.bytes[at]),
            None => None,
        }
    }

    pub fn next_i8(&mut self) -> (r: Option<i8>)
        ensures
            final(self).steps(*old(self), 1),
            old(self).has(1) ==> r == Some(
                byte_as_i8(old(self).source()[old(self).position() as int]),
            ),
            !old(self).has(1) ==> r is None,
    {
        match self.take(1) {
            Some(at) => {
                let b = self.bytes[at];
                if b >= 128 {
                    Some((b as i16 - 256) as i8)
                } else {
                    Some(b as i8)
                }
            },
            None => None,
        }
    }

    pub fn next_bool(&mut self) -> (r: Option<bool>)
        ensures
            final(self).steps(*old(self), 1),
            old(self).has(1) ==> r == Some(bool_at(old(self).source(), old(self).position() as int)),
            !old(self).has(1) ==> r is None,
    {
        match self.take(1) {
            Some(at) => Some(self.bytes[at] != 0),
            None => None,
        }
    }

    pub fn next_u16(&mut self) -> (r: Option<u16>)
        ensures
            final(self).steps(*old(self), 2),
            old(self).has(2) ==> r == Some(u16_at(old(self).source(), old(self).position() as int)),
            !old(self).has(2) ==> r is None,
    {
        match self.take(2) {
            Some(at) => Some(u16_from_be(self.bytes[at], self.bytes[at + 1])),
            None => None,
        }
    }

    pub fn next_i16(&mut self) -> (r: Option<i16>)
        ensures
            final(self).steps(*old(self), 2),
            old(self).has(2) ==> r == Some(i16_at(old(self).source(), old(self).position() as int)),
            !old(self).has(2) ==> r is None,
    {
        match self.take(2) {
            Some(at) => Some(i16_from_be(self.bytes[at], self.bytes[at + 1])),
            None => None,
        }
    }

    pub fn next_u32(&mut self) -> (r: Option<u32>)
        ensures
            final(self).steps(*old(self), 4),
            old(self).has(4) ==> r == Some(u32_at(old(self).source(), old(self).position() as int)),
            !old(self).has(4) ==> r is None,
    {
        match self.take(4) {
            Some(at) => Some(
                u32_from_be(
                    self.bytes[at],
                    self.bytes[at + 1],
                    self.bytes[at + 2],
                    self.bytes[at + 3],
                ),
            ),
            None => None,
        }
    }

    /// Reads the bit pattern of a 32-bit float.
    pub fn next_f32(&mut self) -> (r: Option<F32Bits>)
        ensures
            final(self).steps(*old(self), 4),
            old(self).has(4) ==> r == Some(
                F32Bits { bits: u32_at(old(self).source(), old(self).position() as int) },
            ),
            !old(self).has(4) ==> r is None,
    {
        match self.next_u32() {
            Some(bits) => Some(F32Bits { bits }),
            None => None,
        }
    }

    /// Reads a point: `x`, then `y`.
    pub fn next_i16vec2(&mut self) -> (r: Option<I16Vec2>)
        ensures
            final(self).steps(*old(self), 4),
            old(self).has(4) ==> r == Some(vec2_at(old(self).source(), old(self).position() as int)),
            !old(self).has(4) ==> r is None,
    {
        match self.take(4) {
            Some(at) => Some(
                I16Vec2 {
                    x: i16_from_be(self.bytes[at], self.bytes[at + 1]),
                    y: i16_from_be(self.bytes[at + 2], self.bytes[at + 3]),
                },
            ),
            None => None,
        }
    }
}

} // verus!
