//! The obstacle list that both packets carry.

use vstd::prelude::*;
use crate::byte_reader::{lemma_vec2_read_back, vec2_at, ByteReader};
use crate::byte_writer::{vec2_bytes, PackWriter};
use crate::data_legacy::decode_error::{DecodeError, PackField};
use crate::vector::I16Vec2;

verus! {

/// How many obstacles a packet carries. Unused slots are present, with size 0.
pub const BARRIER_COUNT: usize = 10;

/// How many bytes one obstacle takes on the wire.
pub const BARRIER_BYTES: usize = 5;

/// A detected obstacle.
#[derive(Debug, Clone, Copy, PartialEq, Eq, Hash, Structural)]
pub struct LegacyPackBarrier {
    pub size: u8,
    pub pos: I16Vec2,
}

impl LegacyPackBarrier {
    /// The unused slot.
    pub open spec fn empty() -> Self {
        LegacyPackBarrier { size: 0, pos: I16Vec2 { x: 0, y: 0 } }
    }
}

impl Default for LegacyPackBarrier {
    fn default() -> (b: Self)
        ensures
            b == LegacyPackBarrier::empty(),
    {
        LegacyPackBarrier { size: 0, pos: I16Vec2 { x: 0, y: 0 } }
    }
}

/// The bytes of one obstacle: its size, then its position.
pub open spec fn barrier_bytes(b: LegacyPackBarrier) -> Seq<u8> {
    seq![b.size] + vec2_bytes(b.pos)
}

/// The bytes of a list of obstacles, one after the other.
pub open spec fn barriers_bytes(bs: Seq<LegacyPackBarrier>) -> Seq<u8>
    decreases bs.len(),
{
    if bs.len() == 0 {
        Seq::empty()
    } else {
        barriers_bytes(bs.drop_last()) + barrier_bytes(bs.last())
    }
}

/// The obstacle whose bytes start at `at`.
pub open spec fn barrier_at(s: Seq<u8>, at: int) -> LegacyPackBarrier {
    LegacyPackBarrier { size: s[at], pos: vec2_at(s, at + 1) }
}

/// The obstacle list whose bytes start at `at`.
pub open spec fn barriers_at(s: Seq<u8>, at: int) -> Seq<LegacyPackBarrier> {
    Seq::new(BARRIER_COUNT as nat, |j: int| barrier_at(s, at + BARRIER_BYTES * j))
}

/// The field at which an obstacle list breaks off when only `avail` bytes,
/// fewer than the list needs, are left for it.
pub open spec fn missing_barrier_field(avail: int) -> PackField {
    if avail % (BARRIER_BYTES as int) == 0 {
        PackField::BarrierSize
    } else {
        PackField::BarrierPos
    }
}

/// A list of `n` obstacles takes `5 n` bytes, and each obstacle's bytes stand
/// at its place in the list.
pub proof fn lemma_barriers_bytes_layout(bs: Seq<LegacyPackBarrier>)
    ensures
        barriers_bytes(bs).len() == BARRIER_BYTES * bs.len(),
        forall|j: int|
            0 <= j < bs.len() ==> #[trigger] barriers_bytes(bs).subrange(
                BARRIER_BYTES * j,
                BARRIER_BYTES * j + BARRIER_BYTES,
            ) == barrier_bytes(bs[j]),
    decreases bs.len(),
{
    if bs.len() > 0 {
        let head = bs.drop_last();
        lemma_barriers_bytes_layout(head);
        let all = barriers_bytes(bs);
        assert forall|j: int| 0 <= j < bs.len() implies #[trigger] all.subrange(
            BARRIER_BYTES * j,
            BARRIER_BYTES * j + BARRIER_BYTES,
        ) == barrier_bytes(bs[j]) by {
            if j < head.len() {
                assert(all.subrange(BARRIER_BYTES * j, BARRIER_BYTES * j + BARRIER_BYTES)
                    =~= barriers_bytes(head).subrange(
                    BARRIER_BYTES * j,
                    BARRIER_BYTES * j + BARRIER_BYTES,
                ));
            } else {
                assert(all.subrange(BARRIER_BYTES * j, BARRIER_BYTES * j + BARRIER_BYTES)
                    =~= barrier_bytes(bs.last()));
            }
        }
    }
}

/// An obstacle list written into the payload is read back from the frame.
pub proof fn lemma_frame_barriers(w: Seq<u8>, p: Seq<u8>, at: int, bs: Seq<LegacyPackBarrier>)
    requires
        0 <= at,
        bs.len() == BARRIER_COUNT,
        at + 50 <= p.len() <= w.len(),
        w.subrange(0, p.len() as int) == p,
        p.subrange(at, at + 50) == barriers_bytes(bs),
    ensures
        barriers_at(w, at) == bs,
{
    lemma_barriers_bytes_layout(bs);
    let all = barriers_bytes(bs);
    assert forall|j: int| 0 <= j < BARRIER_COUNT implies barrier_at(w, at + 5 * j) == bs[j] by {
        let one = all.subrange(5 * j, 5 * j + 5);
        assert(one == barrier_bytes(bs[j]));
        assert(w.subrange(at + 5 * j, at + 5 * j + 5) =~= one) by {
            assert forall|i: int| 0 <= i < 5 implies w[at + 5 * j + i] == one[i] by {
                assert(w[at + 5 * j + i] == w.subrange(0, p.len() as int)[at + 5 * j + i]);
                assert(p[at + 5 * j + i] == p.subrange(at, at + 50)[5 * j + i]);
            }
        }
        assert(w[at + 5 * j] == w.subrange(at + 5 * j, at + 5 * j + 5)[0]);
        assert(w.subrange(at + 5 * j + 1, at + 5 * j + 5) =~= one.subrange(1, 5));
        assert(one.subrange(1, 5) =~= vec2_bytes(bs[j].pos));
        lemma_vec2_read_back(w, at + 5 * j + 1, bs[j].pos);
    }
    assert(barriers_at(w, at) =~= bs);
}

/// A list of unused obstacle slots.
pub fn no_barriers() -> (bs: [LegacyPackBarrier; BARRIER_COUNT])
    ensures
        bs@ == Seq::new(BARRIER_COUNT as nat, |j: int| LegacyPackBarrier::empty()),
{
    let nothing = LegacyPackBarrier { size: 0, pos: I16Vec2 { x: 0, y: 0 } };
    let mut bs = [nothing;BARRIER_COUNT];
    let mut j: usize = 0;
    while j < BARRIER_COUNT
        invariant
            j <= BARRIER_COUNT,
            nothing == LegacyPackBarrier::empty(),
            forall|i: int| 0 <= i < j ==> bs@[i] == nothing,
        decreases BARRIER_COUNT - j,
    {
        bs[j] = nothing;
        j = j + 1;
    }
    assert(bs@ =~= Seq::new(BARRIER_COUNT as nat, |j: int| LegacyPackBarrier::empty()));
    bs
}

/// Reads the obstacle list.
pub fn read_barriers(reader: &mut ByteReader) -> (r: Result<
    [LegacyPackBarrier; BARRIER_COUNT],
    DecodeError,
>)
    ensures
        final(reader).source() == old(reader).source(),
        old(reader).position() <= old(reader).source().len(),
        old(reader).has(50) ==> final(reader).position() == old(reader).position() + 50 && (r matches Ok(
            bs,
        ) && bs@ == barriers_at(old(reader).source(), old(reader).position() as int)),
        !old(reader).has(50) ==> r == Err::<[LegacyPackBarrier; BARRIER_COUNT], DecodeError>(
            DecodeError::TruncatedField(
                missing_barrier_field(old(reader).source().len() - old(reader).position()),
            ),
        ),
{
    let ghost src = reader.source();
    let ghost start = reader.position() as int;
    let mut barriers = no_barriers();
    let mut j: usize = 0;
    while j < BARRIER_COUNT
        invariant
            j <= BARRIER_COUNT,
            reader.source() == src,
            src == old(reader).source(),
            start == old(reader).position(),
            j > 0 ==> reader.position() <= src.len(),
            reader.position() == start + BARRIER_BYTES * j,
            forall|k: int| 0 <= k < j ==> barriers@[k] == barrier_at(src, start + BARRIER_BYTES * k),
        decreases BARRIER_COUNT - j,
    {
        let size = match reader.next_u8() {
            Some(v) => v,
            None => {
                return Err(DecodeError::TruncatedField(PackField::BarrierSize));
            },
        };
        let pos = match reader.next_i16vec2() {
            Some(v) => v,
            None => {
                return Err(DecodeError::TruncatedField(PackField::BarrierPos));
            },
        };
        barriers[j] = LegacyPackBarrier { size, pos };
        j = j + 1;
    }
    assert(barriers@ =~= barriers_at(src, start));
    Ok(barriers)
}

/// Writes the obstacle list.
pub fn write_barriers<const N: usize>(
    writer: &mut PackWriter<N>,
    barriers: &[LegacyPackBarrier; BARRIER_COUNT],
)
    requires
        old(writer).fits(50),
    ensures
        final(writer).written() == old(writer).written() + barriers_bytes(barriers@),
{
    let ghost before = writer.written();
    let mut j: usize = 0;
    assert(barriers@.subrange(0, 0) =~= Seq::<LegacyPackBarrier>::empty());
    assert(before + barriers_bytes(Seq::<LegacyPackBarrier>::empty()) =~= before);
    while j < BARRIER_COUNT
        invariant
            j <= BARRIER_COUNT,
            before.len() + 50 < N,
            writer.written() == before + barriers_bytes(barriers@.subrange(0, j as int)),
        decreases BARRIER_COUNT - j,
    {
        proof {
            lemma_barriers_bytes_layout(barriers@.subrange(0, j as int));
        }
        let ghost so_far = writer.written();
        let barrier = barriers[j];
        writer.put_u8(barrier.size);
        writer.put_i16vec2(barrier.pos);
        proof {
            let next = barriers@.subrange(0, j + 1);
            assert(next.drop_last() =~= barriers@.subrange(0, j as int));
            assert(next.last() == barrier);
            assert(writer.written() =~= so_far + barrier_bytes(barrier));
            assert(writer.written() =~= before + barriers_bytes(next));
        }
        j = j + 1;
    }
    assert(barriers@.subrange(0, BARRIER_COUNT as int) =~= barriers@);
}

} // verus!
