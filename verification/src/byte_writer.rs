//! Sequential writing of fixed-width values into a fixed-size, zero-filled
//! frame whose last byte is the checksum of all the others.

use vstd::prelude::*;
use crate::byte_reader::{
    i16_at, lemma_i16_read_back, lemma_u16_read_back, lemma_u32_read_back, lemma_vec2_read_back,
    u16_at, u32_at, vec2_at,
};
use crate::vector::{F32Bits, I16Vec2};
use crate::wire::{
    bool_byte, checksum, checksum_of, i16_bytes, i16_to_be, lemma_byte_sum_concat,
    lemma_byte_sum_zeros, u16_bytes, u16_to_be, u32_bytes, u32_to_be, zeros,
};

verus! {

/// The big-endian bytes of a point: `x`, then `y`.
pub open spec fn vec2_bytes(v: I16Vec2) -> Seq<u8> {
    i16_bytes(v.x) + i16_bytes(v.y)
}

/// The frame of `total` bytes that carries `payload`: the payload, zeros up
/// to the last byte, and there the checksum, started at `seed`, of every
/// byte before it.
pub open spec fn frame(seed: u8, payload: Seq<u8>, total: nat) -> Seq<u8> {
    let body = payload + zeros((total - 1 - payload.len()) as nat);
    body.push(checksum(seed, body))
}

/// A frame is as long as it was asked to be, starts with its payload, goes
/// on with zeros and ends with the checksum of what stands before.
pub proof fn lemma_frame_layout(seed: u8, payload: Seq<u8>, total: nat)
    requires
        payload.len() < total,
    ensures
        frame(seed, payload, total).len() == total,
        frame(seed, payload, total).subrange(0, payload.len() as int) == payload,
        forall|i: int| payload.len() <= i < total - 1 ==> frame(seed, payload, total)[i] == 0,
        frame(seed, payload, total).drop_last() == payload + zeros(
            (total - 1 - payload.len()) as nat,
        ),
        frame(seed, payload, total).last() == checksum(seed, frame(seed, payload, total).drop_last()),
        frame(seed, payload, total).last() == checksum(seed, payload),
{
    let pad = zeros((total - 1 - payload.len()) as nat);
    let body = payload + pad;
    let f = frame(seed, payload, total);
    assert(f.subrange(0, payload.len() as int) =~= payload);
    assert(f.drop_last() =~= body);
    lemma_byte_sum_concat(payload, pad);
    lemma_byte_sum_zeros(pad.len());
}

/// A point written into the payload is read back from the frame.
pub proof fn lemma_frame_vec2(w: Seq<u8>, p: Seq<u8>, at: int, v: I16Vec2)
    requires
        0 <= at,
        at + 4 <= p.len() <= w.len(),
        w.subrange(0, p.len() as int) == p,
        p.subrange(at, at + 4) == vec2_bytes(v),
    ensures
        vec2_at(w, at) == v,
{
    assert(w.subrange(at, at + 4) =~= w.subrange(0, p.len() as int).subrange(at, at + 4));
    lemma_vec2_read_back(w, at, v);
}

/// A signed value written into the payload is read back from the frame.
pub proof fn lemma_frame_i16(w: Seq<u8>, p: Seq<u8>, at: int, x: i16)
    requires
        0 <= at,
        at + 2 <= p.len() <= w.len(),
        w.subrange(0, p.len() as int) == p,
        p.subrange(at, at + 2) == i16_bytes(x),
    ensures
        i16_at(w, at) == x,
{
    assert(w.subrange(at, at + 2) =~= w.subrange(0, p.len() as int).subrange(at, at + 2));
    lemma_i16_read_back(w, at, x);
}

/// An unsigned value written into the payload is read back from the frame.
pub proof fn lemma_frame_u16(w: Seq<u8>, p: Seq<u8>, at: int, x: u16)
    requires
        0 <= at,
        at + 2 <= p.len() <= w.len(),
        w.subrange(0, p.len() as int) == p,
        p.subrange(at, at + 2) == u16_bytes(x),
    ensures
        u16_at(w, at) == x,
{
    assert(w.subrange(at, at + 2) =~= w.subrange(0, p.len() as int).subrange(at, at + 2));
    lemma_u16_read_back(w, at, x);
}

/// An unsigned value written into the payload is read back from the frame.
pub proof fn lemma_frame_u32(w: Seq<u8>, p: Seq<u8>, at: int, x: u32)
    requires
        0 <= at,
        at + 4 <= p.len() <= w.len(),
        w.subrange(0, p.len() as int) == p,
        p.subrange(at, at + 4) == u32_bytes(x),
    ensures
        u32_at(w, at) == x,
{
    assert(w.subrange(at, at + 4) =~= w.subrange(0, p.len() as int).subrange(at, at + 4));
    lemma_u32_read_back(w, at, x);
}

/// A frame of `N` bytes under construction.
pub struct PackWriter<const N: usize> {
    buf: [u8; N],
    at: usize,
}

impl<const N: usize> PackWriter<N> {
    #[verifier::type_invariant]
    spec fn zero_tail(self) -> bool {
        &&& self.at <= N
        &&& forall|i: int| self.at <= i < N ==> self.buf@[i] == 0
    }

    /// The bytes written so far.
    pub closed spec fn written(self) -> Seq<u8> {
        self.buf@.subrange(0, self.at as int)
    }

    /// Whether `n` more bytes fit before the checksum byte.
    pub open spec fn fits(self, n: nat) -> bool {
        self.written().len() + n < N
    }

    pub fn new() -> (w: Self)
        ensures
            w.written() == Seq::<u8>::empty(),
    {
        PackWriter { buf: [0u8; N], at: 0 }
    }

    pub fn put_u8(&mut self, b: u8)
        requires
            old(self).fits(1),
        ensures
            final(self).written() == old(self).written() + seq![b],
    {
        proof {
            use_type_invariant(&*self);
        }
        let at = self.at;
        self.at = at + 1;
        self.buf[at] = b;
        assert(self.written() =~= old(self).written() + seq![b]);
    }

    pub fn put_bool(&mut self, b: bool)
        requires
            old(self).fits(1),
        ensures
            final(self).written() == old(self).written() + seq![bool_byte(b)],
    {
        self.put_u8(if b { 1 } else { 0 });
    }

    pub fn put_u16(&mut self, x: u16)
        requires
            old(self).fits(2),
        ensures
            final(self).written() == old(self).written() + u16_bytes(x),
    {
        let (hi, lo) = u16_to_be(x);
        self.put_u8(hi);
        self.put_u8(lo);
        assert(seq![hi, lo] == u16_bytes(x));
        assert(self.written() =~= old(self).written() + seq![hi, lo]);
    }

    pub fn put_i16(&mut self, x: i16)
        requires
            old(self).fits(2),
        ensures
            final(self).written() == old(self).written() + i16_bytes(x),
    {
        let (hi, lo) = i16_to_be(x);
        self.put_u8(hi);
        self.put_u8(lo);
        assert(seq![hi, lo] == i16_bytes(x));
        assert(self.written() =~= old(self).written() + seq![hi, lo]);
    }

    pub fn put_u32(&mut self, x: u32)
        requires
            old(self).fits(4),
        ensures
            final(self).written() == old(self).written() + u32_bytes(x),
    {
        let (b0, b1, b2, b3) = u32_to_be(x);
        self.put_u8(b0);
        self.put_u8(b1);
        self.put_u8(b2);
        self.put_u8(b3);
        assert(seq![b0, b1, b2, b3] == u32_bytes(x));
        assert(self.written() =~= old(self).written() + seq![b0, b1, b2, b3]);
    }

    /// Writes the bit pattern of a 32-bit float.
    pub fn put_f32(&mut self, x: F32Bits)
        requires
            old(self).fits(4),
        ensures
            final(self).written() == old(self).written() + u32_bytes(x.bits),
    {
        self.put_u32(x.bits);
    }

    /// Writes a point: `x`, then `y`.
    pub fn put_i16vec2(&mut self, v: I16Vec2)
        requires
            old(self).fits(4),
        ensures
            final(self).written() == old(self).written() + vec2_bytes(v),
    {
        self.put_i16(v.x);
        self.put_i16(v.y);
        assert(self.written() =~= old(self).written() + vec2_bytes(v));
    }

    /// Closes the frame: the bytes not written stay zero, and the last one
    /// takes the checksum, started at `seed`, of all the others.
    pub fn finish(self, seed: u8) -> (out: [u8; N])
        requires
            self.fits(0),
        ensures
            out@ == frame(seed, self.written(), N as nat),
    {
        proof {
            use_type_invariant(&self);
        }
        let mut out = self.buf;
        let sum = checksum_of(seed, out.as_slice(), 0, N - 1);
        out[N - 1] = sum;
        proof {
            let body = self.written() + zeros((N - 1 - self.written().len()) as nat);
            assert(self.buf@.subrange(0, N - 1) =~= body);
            assert(out@ =~= body.push(checksum(seed, body)));
        }
        out
    }
}

} // verus!
