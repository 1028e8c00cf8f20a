//! Byte-level conventions shared by every packet: big-endian integers and the
//! 8-bit additive checksum.

use vstd::prelude::*;

verus! {

/// The first byte of every frame.
pub const HEADER_HI: u8 = 0x55;

/// The second byte of every frame.
pub const HEADER_LO: u8 = 0xAA;

/// The unsigned 16-bit value whose big-endian bytes are `hi, lo`.
pub open spec fn be_u16(hi: u8, lo: u8) -> u16 {
    (hi as int * 256 + lo as int) as u16
}

/// The signed 16-bit value whose big-endian two's-complement bytes are
/// `hi, lo`.
pub open spec fn be_i16(hi: u8, lo: u8) -> i16 {
    if hi >= 128 {
        (hi as int * 256 + lo as int - 65536) as i16
    } else {
        (hi as int * 256 + lo as int) as i16
    }
}

/// The unsigned 32-bit value whose big-endian bytes are `b0, b1, b2, b3`.
pub open spec fn be_u32(b0: u8, b1: u8, b2: u8, b3: u8) -> u32 {
    (b0 as int * 16777216 + b1 as int * 65536 + b2 as int * 256 + b3 as int) as u32
}

/// The signed 8-bit value whose two's-complement byte is `b`.
pub open spec fn byte_as_i8(b: u8) -> i8 {
    if b >= 128 {
        (b as int - 256) as i8
    } else {
        b as i8
    }
}

/// The two's-complement pattern of `x`, as an unsigned value.
pub open spec fn i16_pattern(x: i16) -> u16 {
    if x < 0 {
        (x as int + 65536) as u16
    } else {
        x as u16
    }
}

/// The big-endian bytes of `x`.
pub open spec fn u16_bytes(x: u16) -> Seq<u8> {
    seq![(x as int / 256) as u8, (x as int % 256) as u8]
}

/// The big-endian two's-complement bytes of `x`.
pub open spec fn i16_bytes(x: i16) -> Seq<u8> {
    u16_bytes(i16_pattern(x))
}

/// The big-endian bytes of `x`.
pub open spec fn u32_bytes(x: u32) -> Seq<u8> {
    seq![
        (x as int / 16777216) as u8,
        (x as int / 65536 % 256) as u8,
        (x as int / 256 % 256) as u8,
        (x as int % 256) as u8,
    ]
}

/// The byte that stands for a flag on the wire.
pub open spec fn bool_byte(b: bool) -> u8 {
    if b {
        1
    } else {
        0
    }
}

/// `n` zero bytes.
pub open spec fn zeros(n: nat) -> Seq<u8> {
    Seq::new(n, |i: int| 0u8)
}

/// The sum of the bytes of `s`, as a natural number.
pub open spec fn byte_sum(s: Seq<u8>) -> nat
    decreases s.len(),
{
    if s.len() == 0 {
        0
    } else {
        byte_sum(s.drop_last()) + s.last() as nat
    }
}

/// The 8-bit checksum of `s`, started at `seed`: the sum of `seed` and every
/// byte, modulo 256.
pub open spec fn checksum(seed: u8, s: Seq<u8>) -> u8 {
    ((seed as nat + byte_sum(s)) % 256) as u8
}

/// `b` with bit number `bit` flipped.
pub open spec fn flip_bit(b: u8, bit: u8) -> u8 {
    b ^ (1u8 << bit)
}

/// Flipping one of its eight bits changes a byte.
pub proof fn lemma_flip_bit_changes(b: u8, bit: u8)
    requires
        bit < 8,
    ensures
        flip_bit(b, bit) != b,
{
    assert(b ^ (1u8 << bit) != b) by (bit_vector)
        requires
            bit < 8,
    ;
}

/// Reading back the bytes written for `x` gives `x`.
pub proof fn lemma_u16_round_trip(x: u16)
    ensures
        be_u16(u16_bytes(x)[0], u16_bytes(x)[1]) == x,
{
}

/// Reading back the bytes written for `x` gives `x`.
pub proof fn lemma_i16_round_trip(x: i16)
    ensures
        be_i16(i16_bytes(x)[0], i16_bytes(x)[1]) == x,
{
}

/// Reading back the bytes written for `x` gives `x`.
pub proof fn lemma_u32_round_trip(x: u32)
    ensures
        be_u32(u32_bytes(x)[0], u32_bytes(x)[1], u32_bytes(x)[2], u32_bytes(x)[3]) == x,
{
}

/// The sum of a concatenation is the sum of the sums.
pub proof fn lemma_byte_sum_concat(a: Seq<u8>, b: Seq<u8>)
    ensures
        byte_sum(a + b) == byte_sum(a) + byte_sum(b),
    decreases b.len(),
{
    if b.len() == 0 {
        assert(a + b =~= a);
    } else {
        lemma_byte_sum_concat(a, b.drop_last());
        assert((a + b).drop_last() =~= a + b.drop_last());
    }
}

/// Zero bytes add nothing to a sum.
pub proof fn lemma_byte_sum_zeros(n: nat)
    ensures
        byte_sum(zeros(n)) == 0,
    decreases n,
{
    if n > 0 {
        lemma_byte_sum_zeros((n - 1) as nat);
        assert(zeros(n).drop_last() =~= zeros((n - 1) as nat));
    }
}

/// Replacing one byte moves the sum by the difference of the two bytes.
pub proof fn lemma_byte_sum_update(s: Seq<u8>, i: int, b: u8)
    requires
        0 <= i < s.len(),
    ensures
        byte_sum(s.update(i, b)) == byte_sum(s) - s[i] as int + b as int,
    decreases s.len(),
{
    if i == s.len() - 1 {
        assert(s.update(i, b).drop_last() =~= s.drop_last());
    } else {
        lemma_byte_sum_update(s.drop_last(), i, b);
        assert(s.update(i, b).drop_last() =~= s.drop_last().update(i, b));
    }
}

/// Splits `x` into its big-endian bytes.
pub fn u16_to_be(x: u16) -> (b: (u8, u8))
    ensures
        seq![b.0, b.1] == u16_bytes(x),
{
    let hi: u8 = (x / 256) as u8;
    let lo: u8 = (x % 256) as u8;
    (hi, lo)
}

/// Splits `x` into its big-endian two's-complement bytes.
pub fn i16_to_be(x: i16) -> (b: (u8, u8))
    ensures
        seq![b.0, b.1] == i16_bytes(x),
{
    let wide: i32 = x as i32;
    let pattern: u16 = if wide < 0 {
        (wide + 65536) as u16
    } else {
        wide as u16
    };
    u16_to_be(pattern)
}

/// Splits `x` into its big-endian bytes.
pub fn u32_to_be(x: u32) -> (b: (u8, u8, u8, u8))
    ensures
        seq![b.0, b.1, b.2, b.3] == u32_bytes(x),
{
    let b0: u8 = (x / 16777216) as u8;
    let b1: u8 = (x / 65536 % 256) as u8;
    let b2: u8 = (x / 256 % 256) as u8;
    let b3: u8 = (x % 256) as u8;
    (b0, b1, b2, b3)
}

/// Joins two big-endian bytes into an unsigned value.
pub fn u16_from_be(hi: u8, lo: u8) -> (x: u16)
    ensures
        x == be_u16(hi, lo),
{
    hi as u16 * 256 + lo as u16
}

/// Joins two big-endian two's-complement bytes into a signed value.
pub fn i16_from_be(hi: u8, lo: u8) -> (x: i16)
    ensures
        x == be_i16(hi, lo),
{
    let wide: i32 = hi as i32 * 256 + lo as i32;
    if hi >= 128 {
        (wide - 65536) as i16
    } else {
        wide as i16
    }
}

/// Joins four big-endian bytes into an unsigned value.
pub fn u32_from_be(b0: u8, b1: u8, b2: u8, b3: u8) -> (x: u32)
    ensures
        x == be_u32(b0, b1, b2, b3),
{
    b0 as u32 * 16777216 + b1 as u32 * 65536 + b2 as u32 * 256 + b3 as u32
}

/// The checksum of `bytes[start..end]`, started at `seed`.
pub fn checksum_of(seed: u8, bytes: &[u8], start: usize, end: usize) -> (sum: u8)
    requires
        start <= end <= bytes@.len(),
    ensures
        sum == checksum(seed, bytes@.subrange(start as int, end as int)),
{
    let mut sum: u8 = seed;
    let mut i: usize = start;
    while i < end
        invariant
            start <= i <= end <= bytes@.len(),
            sum == checksum(seed, bytes@.subrange(start as int, i as int)),
        decreases end - i,
    {
        proof {
            assert(bytes@.subrange(start as int, i + 1).drop_last() =~= bytes@.subrange(
                start as int,
                i as int,
            ));
        }
        sum = sum.wrapping_add(bytes[i]);
        i = i + 1;
    }
    sum
}

} // verus!
