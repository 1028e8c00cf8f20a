//! The packet the coach sends to a robot.
//!
//! | offset | bytes | field |
//! |---|---|---|
//! | 0 | 2 | header `55 AA`, not checked on decode |
//! | 2 | 1 | declared length |
//! | 3 | 1 | id |
//! | 4 | 1 | message type |
//! | 5 | 35 | five players |
//! | 40 | 50 | ten obstacles |
//! | 90 | 4 | setup position |
//! | 94 | 1 | ball found |
//! | 95 | 4 | position of the ball, as the coach sees it |
//! | 99 | 1 | directive |
//! | 100 | 0, 4 or 7 | what the directive needs |
//! | .. | | zeros |
//! | 204 | 1 | checksum |
//!
//! After the directive stand the target position, target angle and speed of
//! `MoveTo`; or the distance and angle of `Defence`; or the target position
//! of `Pass`; or the source position of `Catch`; or, with any other
//! directive, nothing.

use vstd::prelude::*;
use vstd::std_specs::convert::{FromSpecImpl, TryFromSpecImpl};
use crate::byte_reader::{bool_at, i16_at, vec2_at, ByteReader};
use crate::byte_writer::{frame, vec2_bytes, PackWriter};
use crate::data_legacy::barrier::{
    barriers_at, barriers_bytes, lemma_barriers_bytes_layout, missing_barrier_field, no_barriers,
    read_barriers, write_barriers, LegacyPackBarrier, BARRIER_COUNT,
};
use crate::data_legacy::codes::{LegacyCtrl, LegacyMsgType};
use crate::data_legacy::ctrl_byte::flag_survives;
use crate::data_legacy::decode_error::{DecodeError, PackField};
use crate::data_legacy::player::{
    lemma_players_bytes_layout, missing_player_field, no_players, players_at, players_bytes,
    read_players, write_players, LegacyPackFromCoachPlayer, PLAYER_COUNT,
};
use crate::data_legacy::seal::{check_sum, computed_sum, need, stored_sum};
use crate::vector::I16Vec2;
use crate::wire::{bool_byte, i16_bytes, HEADER_HI, HEADER_LO};

verus! {

/// The length of an encoded coach packet.
pub const PACK_FROM_COACH_BYTE_LENGTH: usize = 205;

/// How many bytes of a coach packet hold fields, at most.
pub const PACK_FROM_COACH_FIELD_BYTES: usize = 107;

/// What the coach tells a robot.
///
/// Of the fields after `ctrl`, only those that `ctrl` needs travel with the
/// packet. A decoded record holds the initial value in each of the others.
#[derive(Debug, Clone, Copy, PartialEq, Eq)]
pub struct LegacyPackFromCoach {
    pub id: u8,
    pub msg_type: LegacyMsgType,
    pub players: [LegacyPackFromCoachPlayer; PLAYER_COUNT],
    pub barriers: [LegacyPackBarrier; BARRIER_COUNT],
    pub setup_pos: I16Vec2,
    pub found_ball: bool,
    pub ball_pos_from_coach: I16Vec2,
    pub ctrl: LegacyCtrl,
    /// With `MoveTo`.
    pub target_pos: I16Vec2,
    /// With `MoveTo`.
    pub target_angle: i16,
    /// With `MoveTo`.
    pub speed: u8,
    /// With `Defence`.
    pub def_angle: i16,
    /// With `Defence`.
    pub def_dist: i16,
    /// With `Pass`.
    pub pass_target_pos: I16Vec2,
    /// With `Catch`.
    pub catch_from_pos: I16Vec2,
}

/// A coach packet as a mathematical value: the record, with its lists as
/// sequences.
pub struct CoachPackView {
    pub id: u8,
    pub msg_type: LegacyMsgType,
    pub players: Seq<LegacyPackFromCoachPlayer>,
    pub barriers: Seq<LegacyPackBarrier>,
    pub setup_pos: I16Vec2,
    pub found_ball: bool,
    pub ball_pos_from_coach: I16Vec2,
    pub ctrl: LegacyCtrl,
    pub target_pos: I16Vec2,
    pub target_angle: i16,
    pub speed: u8,
    pub def_angle: i16,
    pub def_dist: i16,
    pub pass_target_pos: I16Vec2,
    pub catch_from_pos: I16Vec2,
}

impl View for LegacyPackFromCoach {
    type V = CoachPackView;

    open spec fn view(&self) -> CoachPackView {
        CoachPackView {
            id: self.id,
            msg_type: self.msg_type,
            players: self.players@,
            barriers: self.barriers@,
            setup_pos: self.setup_pos,
            found_ball: self.found_ball,
            ball_pos_from_coach: self.ball_pos_from_coach,
            ctrl: self.ctrl,
            target_pos: self.target_pos,
            target_angle: self.target_angle,
            speed: self.speed,
            def_angle: self.def_angle,
            def_dist: self.def_dist,
            pass_target_pos: self.pass_target_pos,
            catch_from_pos: self.catch_from_pos,
        }
    }
}

/// How many bytes follow a directive in a coach packet.
pub open spec fn extra_len(ctrl: LegacyCtrl) -> nat {
    match ctrl {
        LegacyCtrl::MoveTo => 7,
        LegacyCtrl::Defence => 4,
        LegacyCtrl::Pass => 4,
        LegacyCtrl::Catch => 4,
        _ => 0,
    }
}

impl CoachPackView {
    /// The record a coach starts from.
    pub open spec fn initial() -> Self {
        CoachPackView {
            id: 1,
            msg_type: LegacyMsgType::Cmd,
            players: Seq::new(PLAYER_COUNT as nat, |k: int| LegacyPackFromCoachPlayer::unknown()),
            barriers: Seq::new(BARRIER_COUNT as nat, |j: int| LegacyPackBarrier::empty()),
            setup_pos: I16Vec2 { x: 800, y: 900 },
            found_ball: true,
            ball_pos_from_coach: I16Vec2 { x: 800, y: 500 },
            ctrl: LegacyCtrl::Offline,
            target_pos: I16Vec2 { x: 1600, y: 400 },
            target_angle: 0x7fff,
            speed: 9,
            def_angle: 0x3fff,
            def_dist: 100,
            pass_target_pos: I16Vec2 { x: 800, y: 200 },
            catch_from_pos: I16Vec2 { x: 400, y: 500 },
        }
    }

    /// Whether the record has as many players and obstacles as a packet
    /// carries.
    pub open spec fn full(self) -> bool {
        &&& self.players.len() == PLAYER_COUNT
        &&& self.barriers.len() == BARRIER_COUNT
    }

    /// The bytes of the fields that every coach packet holds, in wire order.
    pub open spec fn common(self) -> Seq<u8> {
        seq![HEADER_HI, HEADER_LO]
            + seq![PACK_FROM_COACH_BYTE_LENGTH as u8]
            + seq![self.id]
            + seq![self.msg_type.code()]
            + players_bytes(self.players)
            + barriers_bytes(self.barriers)
            + vec2_bytes(self.setup_pos)
            + seq![bool_byte(self.found_ball)]
            + vec2_bytes(self.ball_pos_from_coach)
            + seq![self.ctrl.code()]
    }

    /// The bytes of the fields that the directive needs, in wire order.
    pub open spec fn extra(self) -> Seq<u8> {
        match self.ctrl {
            LegacyCtrl::MoveTo => vec2_bytes(self.target_pos) + i16_bytes(self.target_angle)
                + seq![self.speed],
            LegacyCtrl::Defence => i16_bytes(self.def_dist) + i16_bytes(self.def_angle),
            LegacyCtrl::Pass => vec2_bytes(self.pass_target_pos),
            LegacyCtrl::Catch => vec2_bytes(self.catch_from_pos),
            _ => Seq::empty(),
        }
    }

    /// The bytes that hold the fields, in wire order.
    pub open spec fn payload(self) -> Seq<u8> {
        self.common() + self.extra()
    }

    /// The encoded packet.
    pub open spec fn wire(self) -> Seq<u8> {
        frame(0, self.payload(), PACK_FROM_COACH_BYTE_LENGTH as nat)
    }

    /// The record as the other side decodes it: each player is as received,
    /// and every field that the directive does not need holds its initial
    /// value.
    pub open spec fn as_received(self) -> Self {
        let rest = Self::initial();
        CoachPackView {
            players: self.players.map_values(|q: LegacyPackFromCoachPlayer| q.as_received()),
            target_pos: if self.ctrl == LegacyCtrl::MoveTo {
                self.target_pos
            } else {
                rest.target_pos
            },
            target_angle: if self.ctrl == LegacyCtrl::MoveTo {
                self.target_angle
            } else {
                rest.target_angle
            },
            speed: if self.ctrl == LegacyCtrl::MoveTo {
                self.speed
            } else {
                rest.speed
            },
            def_angle: if self.ctrl == LegacyCtrl::Defence {
                self.def_angle
            } else {
                rest.def_angle
            },
            def_dist: if self.ctrl == LegacyCtrl::Defence {
                self.def_dist
            } else {
                rest.def_dist
            },
            pass_target_pos: if self.ctrl == LegacyCtrl::Pass {
                self.pass_target_pos
            } else {
                rest.pass_target_pos
            },
            catch_from_pos: if self.ctrl == LegacyCtrl::Catch {
                self.catch_from_pos
            } else {
                rest.catch_from_pos
            },
            ..self
        }
    }

    /// Whether the record is one that a decode can give back: each player's
    /// ball flag is one that its directive's byte can carry, and every field
    /// that the directive does not need holds its initial value.
    pub open spec fn survives_wire(self) -> bool {
        let rest = Self::initial();
        &&& forall|k: int|
            0 <= k < self.players.len() ==> flag_survives(
                (#[trigger] self.players[k]).ctrl,
                self.players[k].has_ball,
            )
        &&& self.ctrl != LegacyCtrl::MoveTo ==> self.target_pos == rest.target_pos
            && self.target_angle == rest.target_angle && self.speed == rest.speed
        &&& self.ctrl != LegacyCtrl::Defence ==> self.def_angle == rest.def_angle && self.def_dist
            == rest.def_dist
        &&& self.ctrl != LegacyCtrl::Pass ==> self.pass_target_pos == rest.pass_target_pos
        &&& self.ctrl != LegacyCtrl::Catch ==> self.catch_from_pos == rest.catch_from_pos
    }
}

/// The first field that `bytes` is too short for, if any. The length byte
/// itself, at offset 2, is taken as read. Which fields follow the directive
/// is decided by the directive's byte.
pub open spec fn coach_missing_field(bytes: Seq<u8>) -> Option<PackField> {
    let len = bytes.len();
    if len < 4 {
        Some(PackField::Id)
    } else if len < 5 {
        Some(PackField::MsgType)
    } else if len < 40 {
        Some(missing_player_field(len - 5))
    } else if len < 90 {
        Some(missing_barrier_field(len - 40))
    } else if len < 94 {
        Some(PackField::SetupPos)
    } else if len < 95 {
        Some(PackField::FoundBall)
    } else if len < 99 {
        Some(PackField::BallPosFromCoach)
    } else if len < 100 {
        Some(PackField::Ctrl)
    } else {
        match LegacyCtrl::of_code(bytes[99]) {
            LegacyCtrl::MoveTo => if len < 104 {
                Some(PackField::TargetPos)
            } else if len < 106 {
                Some(PackField::TargetAngle)
            } else if len < 107 {
                Some(PackField::Speed)
            } else {
                None
            },
            LegacyCtrl::Defence => if len < 102 {
                Some(PackField::DefDist)
            } else if len < 104 {
                Some(PackField::DefAngle)
            } else {
                None
            },
            LegacyCtrl::Pass => if len < 104 {
                Some(PackField::PassTargetPos)
            } else {
                None
            },
            LegacyCtrl::Catch => if len < 104 {
                Some(PackField::CatchFromPos)
            } else {
                None
            },
            _ => None,
        }
    }
}

/// The record that the fields of `bytes` spell, for a buffer long enough to
/// hold them all.
pub open spec fn coach_fields(bytes: Seq<u8>) -> CoachPackView {
    let ctrl = LegacyCtrl::of_code(bytes[99]);
    let rest = CoachPackView::initial();
    CoachPackView {
        id: bytes[3],
        msg_type: LegacyMsgType::of_code(bytes[4]),
        players: players_at(bytes, 5),
        barriers: barriers_at(bytes, 40),
        setup_pos: vec2_at(bytes, 90),
        found_ball: bool_at(bytes, 94),
        ball_pos_from_coach: vec2_at(bytes, 95),
        ctrl,
        target_pos: if ctrl == LegacyCtrl::MoveTo {
            vec2_at(bytes, 100)
        } else {
            rest.target_pos
        },
        target_angle: if ctrl == LegacyCtrl::MoveTo {
            i16_at(bytes, 104)
        } else {
            rest.target_angle
        },
        speed: if ctrl == LegacyCtrl::MoveTo {
            bytes[106]
        } else {
            rest.speed
        },
        def_dist: if ctrl == LegacyCtrl::Defence {
            i16_at(bytes, 100)
        } else {
            rest.def_dist
        },
        def_angle: if ctrl == LegacyCtrl::Defence {
            i16_at(bytes, 102)
        } else {
            rest.def_angle
        },
        pass_target_pos: if ctrl == LegacyCtrl::Pass {
            vec2_at(bytes, 100)
        } else {
            rest.pass_target_pos
        },
        catch_from_pos: if ctrl == LegacyCtrl::Catch {
            vec2_at(bytes, 100)
        } else {
            rest.catch_from_pos
        },
    }
}

/// What decoding `bytes` as a coach packet gives.
///
/// The header is skipped unread. A buffer shorter than its length byte
/// declares is refused before any field is read. Then the fields are read in
/// order, and the first one cut off is reported. Last, the final byte of the
/// buffer, wherever it stands, must be the checksum of all the bytes before
/// it.
pub open spec fn coach_decode(bytes: Seq<u8>) -> Result<CoachPackView, DecodeError> {
    if bytes.len() < 3 {
        Err(DecodeError::TruncatedField(PackField::SetLen))
    } else if bytes.len() < bytes[2] {
        Err(DecodeError::LengthMismatch)
    } else if let Some(field) = coach_missing_field(bytes) {
        Err(DecodeError::TruncatedField(field))
    } else if computed_sum(bytes) != stored_sum(bytes) {
        Err(
            DecodeError::ChecksumMismatch {
                computed: computed_sum(bytes),
                expected: stored_sum(bytes),
            },
        )
    } else {
        Ok(coach_fields(bytes))
    }
}

/// The record with the given view.
pub open spec fn coach_pack_of(v: CoachPackView) -> LegacyPackFromCoach {
    choose|pack: LegacyPackFromCoach| pack@ == v
}

/// A record is determined by its view.
pub proof fn lemma_coach_pack_of_view(pack: LegacyPackFromCoach)
    ensures
        coach_pack_of(pack@) == pack,
{
    let q = coach_pack_of(pack@);
    assert(q@ == pack@);
    assert(q.players =~= pack.players);
    assert(q.barriers =~= pack.barriers);
}

/// What decoding `bytes` gives, as a record.
pub open spec fn coach_decode_pack(bytes: Seq<u8>) -> Result<LegacyPackFromCoach, DecodeError> {
    match coach_decode(bytes) {
        Ok(v) => Ok(coach_pack_of(v)),
        Err(e) => Err(e),
    }
}

impl LegacyPackFromCoach {
    /// Decodes a coach packet.
    pub fn try_from_bytes(bytes: &[u8]) -> (r: Result<Self, DecodeError>)
        ensures
            match r {
                Ok(pack) => coach_decode(bytes@) == Ok::<CoachPackView, DecodeError>(pack@),
                Err(e) => coach_decode(bytes@) == Err::<CoachPackView, DecodeError>(e),
            },
            r == coach_decode_pack(bytes@),
    {
        let rest = Self::default();
        let mut reader = ByteReader::new(bytes);
        let _ = reader.next_u16();
        let set_len = need(reader.next_u8(), PackField::SetLen)?;
        if bytes.len() < set_len as usize {
            return Err(DecodeError::LengthMismatch);
        }
        let id = need(reader.next_u8(), PackField::Id)?;
        let msg_type = LegacyMsgType::from_u8(need(reader.next_u8(), PackField::MsgType)?);
        let players = read_players(&mut reader)?;
        let barriers = read_barriers(&mut reader)?;
        let setup_pos = need(reader.next_i16vec2(), PackField::SetupPos)?;
        let found_ball = need(reader.next_bool(), PackField::FoundBall)?;
        let ball_pos_from_coach = need(reader.next_i16vec2(), PackField::BallPosFromCoach)?;
        let ctrl = LegacyCtrl::from_u8(need(reader.next_u8(), PackField::Ctrl)?);
        let mut target_pos = rest.target_pos;
        let mut target_angle = rest.target_angle;
        let mut speed = rest.speed;
        let mut def_angle = rest.def_angle;
        let mut def_dist = rest.def_dist;
        let mut pass_target_pos = rest.pass_target_pos;
        let mut catch_from_pos = rest.catch_from_pos;
        match ctrl {
            LegacyCtrl::MoveTo => {
                target_pos = need(reader.next_i16vec2(), PackField::TargetPos)?;
                target_angle = need(reader.next_i16(), PackField::TargetAngle)?;
                speed = need(reader.next_u8(), PackField::Speed)?;
            },
            LegacyCtrl::Defence => {
                def_dist = need(reader.next_i16(), PackField::DefDist)?;
                def_angle = need(reader.next_i16(), PackField::DefAngle)?;
            },
            LegacyCtrl::Pass => {
                pass_target_pos = need(reader.next_i16vec2(), PackField::PassTargetPos)?;
            },
            LegacyCtrl::Catch => {
                catch_from_pos = need(reader.next_i16vec2(), PackField::CatchFromPos)?;
            },
            _ => {},
        }
        check_sum(bytes)?;
        let pack = LegacyPackFromCoach {
            id,
            msg_type,
            players,
            barriers,
            setup_pos,
            found_ball,
            ball_pos_from_coach,
            ctrl,
            target_pos,
            target_angle,
            speed,
            def_angle,
            def_dist,
            pass_target_pos,
            catch_from_pos,
        };
        proof {
            lemma_coach_pack_of_view(pack);
        }
        Ok(pack)
    }

    /// Encodes the record.
    pub fn to_bytes(&self) -> (out: [u8; PACK_FROM_COACH_BYTE_LENGTH])
        ensures
            out@ == self@.wire(),
    {
        let mut w = PackWriter::<PACK_FROM_COACH_BYTE_LENGTH>::new();
        w.put_u8(HEADER_HI);
        w.put_u8(HEADER_LO);
        assert(w.written() =~= seq![HEADER_HI, HEADER_LO]);
        w.put_u8(PACK_FROM_COACH_BYTE_LENGTH as u8);
        w.put_u8(self.id);
        w.put_u8(self.msg_type.to_u8());
        write_players(&mut w, &self.players);
        proof {
            lemma_players_bytes_layout(self.players@);
        }
        write_barriers(&mut w, &self.barriers);
        proof {
            lemma_barriers_bytes_layout(self.barriers@);
        }
        w.put_i16vec2(self.setup_pos);
        w.put_bool(self.found_ball);
        w.put_i16vec2(self.ball_pos_from_coach);
        w.put_u8(self.ctrl.to_u8());
        let ghost common = w.written();
        match self.ctrl {
            LegacyCtrl::MoveTo => {
                w.put_i16vec2(self.target_pos);
                w.put_i16(self.target_angle);
                w.put_u8(self.speed);
            },
            LegacyCtrl::Defence => {
                w.put_i16(self.def_dist);
                w.put_i16(self.def_angle);
            },
            LegacyCtrl::Pass => {
                w.put_i16vec2(self.pass_target_pos);
            },
            LegacyCtrl::Catch => {
                w.put_i16vec2(self.catch_from_pos);
            },
            _ => {},
        }
        assert(w.written() =~= common + self@.extra());
        w.finish(0)
    }
}

impl Default for LegacyPackFromCoach {
    fn default() -> (pack: Self)
        ensures
            pack@ == CoachPackView::initial(),
    {
        let pack = LegacyPackFromCoach {
            id: 1,
            msg_type: LegacyMsgType::Cmd,
            players: no_players(),
            barriers: no_barriers(),
            setup_pos: I16Vec2::new(800, 900),
            found_ball: true,
            ball_pos_from_coach: I16Vec2::new(800, 500),
            ctrl: LegacyCtrl::Offline,
            target_pos: I16Vec2::new(1600, 400),
            target_angle: 0x7fff,
            speed: 9,
            def_angle: 0x3fff,
            def_dist: 100,
            pass_target_pos: I16Vec2::new(800, 200),
            catch_from_pos: I16Vec2::new(400, 500),
        };
        assert(pack@.players =~= CoachPackView::initial().players);
        assert(pack@.barriers =~= CoachPackView::initial().barriers);
        pack
    }
}

/// The array that holds the encoded packet.
pub open spec fn coach_wire_array(v: CoachPackView) -> [u8; PACK_FROM_COACH_BYTE_LENGTH] {
    choose|out: [u8; PACK_FROM_COACH_BYTE_LENGTH]| out@ == v.wire()
}

impl From<LegacyPackFromCoach> for [u8; PACK_FROM_COACH_BYTE_LENGTH] {
    fn from(val: LegacyPackFromCoach) -> (out: Self)
        ensures
            out@ == val@.wire(),
    {
        let out = val.to_bytes();
        proof {
            assert(coach_wire_array(val@)@ == out@);
            assert(coach_wire_array(val@) =~= out);
        }
        out
    }
}

impl FromSpecImpl<LegacyPackFromCoach> for [u8; PACK_FROM_COACH_BYTE_LENGTH] {
    open spec fn obeys_from_spec() -> bool {
        true
    }

    open spec fn from_spec(val: LegacyPackFromCoach) -> [u8; PACK_FROM_COACH_BYTE_LENGTH] {
        coach_wire_array(val@)
    }
}

impl TryFrom<[u8; PACK_FROM_COACH_BYTE_LENGTH]> for LegacyPackFromCoach {
    type Error = DecodeError;

    fn try_from(value: [u8; PACK_FROM_COACH_BYTE_LENGTH]) -> (r: Result<Self, DecodeError>) {
        Self::try_from_bytes(value.as_slice())
    }
}

impl TryFromSpecImpl<[u8; PACK_FROM_COACH_BYTE_LENGTH]> for LegacyPackFromCoach {
    open spec fn obeys_try_from_spec() -> bool {
        true
    }

    open spec fn try_from_spec(value: [u8; PACK_FROM_COACH_BYTE_LENGTH]) -> Result<Self, DecodeError> {
        coach_decode_pack(value@)
    }
}

} // verus!
