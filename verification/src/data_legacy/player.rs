//! The player list of the coach's packet.

use vstd::prelude::*;
use crate::byte_reader::{i16_at, lemma_i16_read_back, lemma_vec2_read_back, vec2_at, ByteReader};
use crate::byte_writer::{vec2_bytes, PackWriter};
use crate::data_legacy::codes::LegacyCtrl;
use crate::data_legacy::ctrl_byte::{byte_of_ctrl, ctrl_of_byte, decode_ctrl, encode_ctrl};
use crate::data_legacy::decode_error::{DecodeError, PackField};
use crate::vector::I16Vec2;
use crate::wire::i16_bytes;

verus! {

/// How many players a coach packet carries.
pub const PLAYER_COUNT: usize = 5;

/// How many bytes one player takes on the wire.
pub const PLAYER_BYTES: usize = 7;

/// What the coach knows of one player. A player's number is its place in
/// the list.
#[derive(Debug, Clone, Copy, PartialEq, Eq, Hash, Structural)]
pub struct LegacyPackFromCoachPlayer {
    pub ctrl: LegacyCtrl,
    pub has_ball: bool,
    pub pos: I16Vec2,
    pub angle: i16,
}

impl LegacyPackFromCoachPlayer {
    /// The player of whom nothing is known.
    pub open spec fn unknown() -> Self {
        LegacyPackFromCoachPlayer {
            ctrl: LegacyCtrl::UndefinedVal,
            has_ball: false,
            pos: I16Vec2 { x: 0, y: 0 },
            angle: 0,
        }
    }

    /// The player as the other side decodes it: directive and ball flag are
    /// what their shared byte gives back.
    pub open spec fn as_received(self) -> Self {
        LegacyPackFromCoachPlayer {
            ctrl: ctrl_of_byte(byte_of_ctrl(self.ctrl, self.has_ball)).0,
            has_ball: ctrl_of_byte(byte_of_ctrl(self.ctrl, self.has_ball)).1,
            ..self
        }
    }
}

impl Default for LegacyPackFromCoachPlayer {
    fn default() -> (p: Self)
        ensures
            p == LegacyPackFromCoachPlayer::unknown(),
    {
        LegacyPackFromCoachPlayer {
            ctrl: LegacyCtrl::UndefinedVal,
            has_ball: false,
            pos: I16Vec2 { x: 0, y: 0 },
            angle: 0,
        }
    }
}

/// The bytes of one player: directive with ball flag, position, angle.
pub open spec fn player_bytes(p: LegacyPackFromCoachPlayer) -> Seq<u8> {
    seq![byte_of_ctrl(p.ctrl, p.has_ball)] + vec2_bytes(p.pos) + i16_bytes(p.angle)
}

/// The bytes of a list of players, one after the other.
pub open spec fn players_bytes(ps: Seq<LegacyPackFromCoachPlayer>) -> Seq<u8>
    decreases ps.len(),
{
    if ps.len() == 0 {
        Seq::empty()
    } else {
        players_bytes(ps.drop_last()) + player_bytes(ps.last())
    }
}

/// The player whose bytes start at `at`.
pub open spec fn player_at(s: Seq<u8>, at: int) -> LegacyPackFromCoachPlayer {
    LegacyPackFromCoachPlayer {
        ctrl: ctrl_of_byte(s[at]).0,
        has_ball: ctrl_of_byte(s[at]).1,
        pos: vec2_at(s, at + 1),
        angle: i16_at(s, at + 5),
    }
}

/// The player list whose bytes start at `at`.
pub open spec fn players_at(s: Seq<u8>, at: int) -> Seq<LegacyPackFromCoachPlayer> {
    Seq::new(PLAYER_COUNT as nat, |k: int| player_at(s, at + PLAYER_BYTES * k))
}

/// The field at which a player list breaks off when only `avail` bytes,
/// fewer than the list needs, are left for it.
pub open spec fn missing_player_field(avail: int) -> PackField {
    if avail % (PLAYER_BYTES as int) == 0 {
        PackField::PlayerCtrlByte
    } else if avail % (PLAYER_BYTES as int) < 5 {
        PackField::PlayerPos
    } else {
        PackField::PlayerAngle
    }
}

/// A list of `n` players takes `7 n` bytes, and each player's bytes stand at
/// its place in the list.
pub proof fn lemma_players_bytes_layout(ps: Seq<LegacyPackFromCoachPlayer>)
    ensures
        players_bytes(ps).len() == PLAYER_BYTES * ps.len(),
        forall|k: int|
            0 <= k < ps.len() ==> #[trigger] players_bytes(ps).subrange(
                PLAYER_BYTES * k,
                PLAYER_BYTES * k + PLAYER_BYTES,
            ) == player_bytes(ps[k]),
    decreases ps.len(),
{
    if ps.len() > 0 {
        let head = ps.drop_last();
        lemma_players_bytes_layout(head);
        let all = players_bytes(ps);
        assert forall|k: int| 0 <= k < ps.len() implies #[trigger] all.subrange(
            PLAYER_BYTES * k,
            PLAYER_BYTES * k + PLAYER_BYTES,
        ) == player_bytes(ps[k]) by {
            if k < head.len() {
                assert(all.subrange(PLAYER_BYTES * k, PLAYER_BYTES * k + PLAYER_BYTES)
                    =~= players_bytes(head).subrange(
                    PLAYER_BYTES * k,
                    PLAYER_BYTES * k + PLAYER_BYTES,
                ));
            } else {
                assert(all.subrange(PLAYER_BYTES * k, PLAYER_BYTES * k + PLAYER_BYTES)
                    =~= player_bytes(ps.last()));
            }
        }
    }
}

/// A player list written into the payload is read back from the frame, each
/// player as received.
pub proof fn lemma_frame_players(
    w: Seq<u8>,
    p: Seq<u8>,
    at: int,
    ps: Seq<LegacyPackFromCoachPlayer>,
)
    requires
        0 <= at,
        ps.len() == PLAYER_COUNT,
        at + 35 <= p.len() <= w.len(),
        w.subrange(0, p.len() as int) == p,
        p.subrange(at, at + 35) == players_bytes(ps),
    ensures
        players_at(w, at) == ps.map_values(|q: LegacyPackFromCoachPlayer| q.as_received()),
{
    lemma_players_bytes_layout(ps);
    let all = players_bytes(ps);
    assert forall|k: int| 0 <= k < PLAYER_COUNT implies player_at(w, at + 7 * k)
        == ps[k].as_received() by {
        let one = all.subrange(7 * k, 7 * k + 7);
        assert(one == player_bytes(ps[k]));
        assert(w.subrange(at + 7 * k, at + 7 * k + 7) =~= one) by {
            assert forall|i: int| 0 <= i < 7 implies w[at + 7 * k + i] == one[i] by {
                assert(w[at + 7 * k + i] == w.subrange(0, p.len() as int)[at + 7 * k + i]);
                assert(p[at + 7 * k + i] == p.subrange(at, at + 35)[7 * k + i]);
            }
        }
        assert(w[at + 7 * k] == w.subrange(at + 7 * k, at + 7 * k + 7)[0]);
        assert(w.subrange(at + 7 * k + 1, at + 7 * k + 5) =~= one.subrange(1, 5));
        assert(one.subrange(1, 5) =~= vec2_bytes(ps[k].pos));
        lemma_vec2_read_back(w, at + 7 * k + 1, ps[k].pos);
        assert(w.subrange(at + 7 * k + 5, at + 7 * k + 7) =~= one.subrange(5, 7));
        assert(one.subrange(5, 7) =~= i16_bytes(ps[k].angle));
        lemma_i16_read_back(w, at + 7 * k + 5, ps[k].angle);
    }
    assert(players_at(w, at) =~= ps.map_values(|q: LegacyPackFromCoachPlayer| q.as_received()));
}

/// A list of players of whom nothing is known.
pub fn no_players() -> (ps: [LegacyPackFromCoachPlayer; PLAYER_COUNT])
    ensures
        ps@ == Seq::new(PLAYER_COUNT as nat, |k: int| LegacyPackFromCoachPlayer::unknown()),
{
    let nobody = LegacyPackFromCoachPlayer {
        ctrl: LegacyCtrl::UndefinedVal,
        has_ball: false,
        pos: I16Vec2 { x: 0, y: 0 },
        angle: 0,
    };
    let mut ps = [nobody;PLAYER_COUNT];
    let mut k: usize = 0;
    while k < PLAYER_COUNT
        invariant
            k <= PLAYER_COUNT,
            nobody == LegacyPackFromCoachPlayer::unknown(),
            forall|i: int| 0 <= i < k ==> ps@[i] == nobody,
        decreases PLAYER_COUNT - k,
    {
        ps[k] = nobody;
        k = k + 1;
    }
    assert(ps@ =~= Seq::new(PLAYER_COUNT as nat, |k: int| LegacyPackFromCoachPlayer::unknown()));
    ps
}

/// Reads the player list.
pub fn read_players(reader: &mut ByteReader) -> (r: Result<
    [LegacyPackFromCoachPlayer; PLAYER_COUNT],
    DecodeError,
>)
    ensures
        final(reader).source() == old(reader).source(),
        old(reader).position() <= old(reader).source().len(),
        old(reader).has(35) ==> final(reader).position() == old(reader).position() + 35 && (r matches Ok(
            ps,
        ) && ps@ == players_at(old(reader).source(), old(reader).position() as int)),
        !old(reader).has(35) ==> r == Err::<[LegacyPackFromCoachPlayer; PLAYER_COUNT], DecodeError>(
            DecodeError::TruncatedField(
                missing_player_field(old(reader).source().len() - old(reader).position()),
            ),
        ),
{
    let ghost src = reader.source();
    let ghost start = reader.position() as int;
    let mut players = no_players();
    let mut k: usize = 0;
    while k < PLAYER_COUNT
        invariant
            k <= PLAYER_COUNT,
            reader.source() == src,
            src == old(reader).source(),
            start == old(reader).position(),
            k > 0 ==> reader.position() <= src.len(),
            reader.position() == start + PLAYER_BYTES * k,
            forall|i: int| 0 <= i < k ==> players@[i] == player_at(src, start + PLAYER_BYTES * i),
        decreases PLAYER_COUNT - k,
    {
        let ctrl_byte = match reader.next_u8() {
            Some(v) => v,
            None => {
                return Err(DecodeError::TruncatedField(PackField::PlayerCtrlByte));
            },
        };
        let (ctrl, has_ball) = decode_ctrl(ctrl_byte);
        let pos = match reader.next_i16vec2() {
            Some(v) => v,
            None => {
                return Err(DecodeError::TruncatedField(PackField::PlayerPos));
            },
        };
        let angle = match reader.next_i16() {
            Some(v) => v,
            None => {
                return Err(DecodeError::TruncatedField(PackField::PlayerAngle));
            },
        };
        players[k] = LegacyPackFromCoachPlayer { ctrl, has_ball, pos, angle };
        k = k + 1;
    }
    assert(players@ =~= players_at(src, start));
    Ok(players)
}

/// Writes the player list.
pub fn write_players<const N: usize>(
    writer: &mut PackWriter<N>,
    players: &[LegacyPackFromCoachPlayer; PLAYER_COUNT],
)
    requires
        old(writer).fits(35),
    ensures
        final(writer).written() == old(writer).written() + players_bytes(players@),
{
    let ghost before = writer.written();
    let mut k: usize = 0;
    assert(players@.subrange(0, 0) =~= Seq::<LegacyPackFromCoachPlayer>::empty());
    assert(before + players_bytes(Seq::<LegacyPackFromCoachPlayer>::empty()) =~= before);
    while k < PLAYER_COUNT
        invariant
            k <= PLAYER_COUNT,
            before.len() + 35 < N,
            writer.written() == before + players_bytes(players@.subrange(0, k as int)),
        decreases PLAYER_COUNT - k,
    {
        proof {
            lemma_players_bytes_layout(players@.subrange(0, k as int));
        }
        let ghost so_far = writer.written();
        let player = players[k];
        writer.put_u8(encode_ctrl(player.ctrl, player.has_ball));
        writer.put_i16vec2(player.pos);
        writer.put_i16(player.angle);
        proof {
            let next = players@.subrange(0, k + 1);
            assert(next.drop_last() =~= players@.subrange(0, k as int));
            assert(next.last() == player);
            assert(writer.written() =~= so_far + player_bytes(player));
            assert(writer.written() =~= before + players_bytes(next));
        }
        k = k + 1;
    }
    assert(players@.subrange(0, PLAYER_COUNT as int) =~= players@);
}

} // verus!
