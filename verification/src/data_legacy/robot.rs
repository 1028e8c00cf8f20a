//! The packet a robot sends to the coach.
//!
//! | offset | bytes | field |
//! |---|---|---|
//! | 0 | 2 | header `55 AA`, not checked on decode |
//! | 2 | 1 | declared length |
//! | 3 | 1 | id |
//! | 4 | 1 | message type |
//! | 5 | 4 | position |
//! | 9 | 2 | angle |
//! | 11 | 1 | directive, with the ball flag in its top bit |
//! | 12 | 4 | position of the ball found |
//! | 16 | 2 | velocity |
//! | 18 | 2 | velocity angle |
//! | 20 | 1 | pass kick |
//! | 21 | 4 | pass target |
//! | 25 | 50 | ten obstacles |
//! | 75 | 18 | telemetry |
//! | 93 | 82 | zeros |
//! | 175 | 1 | checksum |

use vstd::prelude::*;
use vstd::std_specs::convert::{FromSpecImpl, TryFromSpecImpl};
use crate::byte_reader::{bool_at, i16_at, u16_at, u32_at, vec2_at, ByteReader};
use crate::byte_writer::{frame, vec2_bytes, PackWriter};
use crate::data_legacy::barrier::{
    barriers_at, barriers_bytes, lemma_barriers_bytes_layout, missing_barrier_field, no_barriers,
    read_barriers, write_barriers, LegacyPackBarrier, BARRIER_COUNT,
};
use crate::data_legacy::codes::{LegacyCtrl, LegacyMsgType};
use crate::data_legacy::ctrl_byte::{
    byte_of_ctrl, ctrl_of_byte, decode_ctrl, encode_ctrl, flag_survives,
};
use crate::data_legacy::decode_error::{DecodeError, PackField};
use crate::data_legacy::seal::{check_sum, computed_sum, need, stored_sum};
use crate::vector::{F32Bits, I16Vec2};
use crate::wire::{bool_byte, i16_bytes, u16_bytes, u32_bytes, HEADER_HI, HEADER_LO};

verus! {

/// The length of an encoded robot packet.
pub const PACK_FROM_ROBOT_BYTE_LENGTH: usize = 176;

/// How many bytes of a robot packet hold fields.
pub const PACK_FROM_ROBOT_FIELD_BYTES: usize = 93;

/// What a robot reports.
#[derive(Debug, Clone, Copy, PartialEq, Eq)]
pub struct LegacyPackFromRobot {
    pub id: u8,
    pub msg_type: LegacyMsgType,
    /// Where the robot is.
    pub pos: I16Vec2,
    /// Where the robot faces.
    pub angle: i16,
    pub ctrl: LegacyCtrl,
    /// Whether the robot holds the ball.
    pub has_ball: bool,
    /// Whether the robot sees the ball. Not carried by the packet: a decoded
    /// record always says `true`.
    pub found_ball: bool,
    pub found_ball_pos: I16Vec2,
    pub velocity: u16,
    pub velocity_angle: i16,
    pub pass_kick: bool,
    pub pass_target_pos: I16Vec2,
    pub barriers: [LegacyPackBarrier; BARRIER_COUNT],
    pub computer_ac: u8,
    pub computer_battery_flag: u8,
    pub computer_battery_percent: u8,
    pub computer_working_second_count: u16,
    pub computer_cpu_percent: u8,
    pub computer_cpu_frequency_mhz: F32Bits,
    pub soft_version: F32Bits,
    pub robot_power_volt: u8,
    pub robot_charge: bool,
    pub video_fps: u8,
    pub multicast_fps: u8,
}

/// A robot packet as a mathematical value: the record, with its obstacle
/// list as a sequence.
pub struct RobotPackView {
    pub id: u8,
    pub msg_type: LegacyMsgType,
    pub pos: I16Vec2,
    pub angle: i16,
    pub ctrl: LegacyCtrl,
    pub has_ball: bool,
    pub found_ball: bool,
    pub found_ball_pos: I16Vec2,
    pub velocity: u16,
    pub velocity_angle: i16,
    pub pass_kick: bool,
    pub pass_target_pos: I16Vec2,
    pub barriers: Seq<LegacyPackBarrier>,
    pub computer_ac: u8,
    pub computer_battery_flag: u8,
    pub computer_battery_percent: u8,
    pub computer_working_second_count: u16,
    pub computer_cpu_percent: u8,
    pub computer_cpu_frequency_mhz: F32Bits,
    pub soft_version: F32Bits,
    pub robot_power_volt: u8,
    pub robot_charge: bool,
    pub video_fps: u8,
    pub multicast_fps: u8,
}

impl View for LegacyPackFromRobot {
    type V = RobotPackView;

    open spec fn view(&self) -> RobotPackView {
        RobotPackView {
            id: self.id,
            msg_type: self.msg_type,
            pos: self.pos,
            angle: self.angle,
            ctrl: self.ctrl,
            has_ball: self.has_ball,
            found_ball: self.found_ball,
            found_ball_pos: self.found_ball_pos,
            velocity: self.velocity,
            velocity_angle: self.velocity_angle,
            pass_kick: self.pass_kick,
            pass_target_pos: self.pass_target_pos,
            barriers: self.barriers@,
            computer_ac: self.computer_ac,
            computer_battery_flag: self.computer_battery_flag,
            computer_battery_percent: self.computer_battery_percent,
            computer_working_second_count: self.computer_working_second_count,
            computer_cpu_percent: self.computer_cpu_percent,
            computer_cpu_frequency_mhz: self.computer_cpu_frequency_mhz,
            soft_version: self.soft_version,
            robot_power_volt: self.robot_power_volt,
            robot_charge: self.robot_charge,
            video_fps: self.video_fps,
            multicast_fps: self.multicast_fps,
        }
    }
}

impl RobotPackView {
    /// The record a robot starts from.
    pub open spec fn initial() -> Self {
        RobotPackView {
            id: 1,
            msg_type: LegacyMsgType::Teammate,
            pos: I16Vec2 { x: 800, y: 500 },
            angle: 11451,
            ctrl: LegacyCtrl::Offline,
            has_ball: false,
            found_ball: true,
            found_ball_pos: I16Vec2 { x: 1919, y: 810 },
            velocity: 0,
            velocity_angle: 0,
            pass_kick: true,
            pass_target_pos: I16Vec2 { x: 114, y: 514 },
            barriers: Seq::new(BARRIER_COUNT as nat, |j: int| LegacyPackBarrier::empty()),
            computer_ac: 11,
            computer_battery_flag: 45,
            computer_battery_percent: 14,
            computer_working_second_count: 19198,
            computer_cpu_percent: 10,
            computer_cpu_frequency_mhz: F32Bits { bits: 0x448F_247B },
            soft_version: F32Bits { bits: 0x3DEA_8651 },
            robot_power_volt: 0,
            robot_charge: true,
            video_fps: 114,
            multicast_fps: 51,
        }
    }

    /// Whether the record has as many obstacles as a packet carries.
    pub open spec fn full(self) -> bool {
        self.barriers.len() == BARRIER_COUNT
    }

    /// The bytes that hold the fields, in wire order.
    pub open spec fn payload(self) -> Seq<u8> {
        seq![HEADER_HI, HEADER_LO]
            + seq![PACK_FROM_ROBOT_BYTE_LENGTH as u8]
            + seq![self.id]
            + seq![self.msg_type.code()]
            + vec2_bytes(self.pos)
            + i16_bytes(self.angle)
            + seq![byte_of_ctrl(self.ctrl, self.has_ball)]
            + vec2_bytes(self.found_ball_pos)
            + u16_bytes(self.velocity)
            + i16_bytes(self.velocity_angle)
            + seq![bool_byte(self.pass_kick)]
            + vec2_bytes(self.pass_target_pos)
            + barriers_bytes(self.barriers)
            + seq![self.computer_ac]
            + seq![self.computer_battery_flag]
            + seq![self.computer_battery_percent]
            + u16_bytes(self.computer_working_second_count)
            + seq![self.computer_cpu_percent]
            + u32_bytes(self.computer_cpu_frequency_mhz.bits)
            + u32_bytes(self.soft_version.bits)
            + seq![self.robot_power_volt]
            + seq![bool_byte(self.robot_charge)]
            + seq![self.video_fps]
            + seq![self.multicast_fps]
    }

    /// The encoded packet.
    pub open spec fn wire(self) -> Seq<u8> {
        frame(0, self.payload(), PACK_FROM_ROBOT_BYTE_LENGTH as nat)
    }

    /// Whether the record is one that a decode can give back: it says that
    /// the ball is seen, and its ball flag is one that its directive's byte
    /// can carry.
    pub open spec fn survives_wire(self) -> bool {
        &&& self.found_ball
        &&& flag_survives(self.ctrl, self.has_ball)
    }

    /// The record as the other side decodes it: the ball counts as seen, and
    /// directive and ball flag are what their shared byte gives back.
    pub open spec fn as_received(self) -> Self {
        RobotPackView {
            found_ball: true,
            ctrl: ctrl_of_byte(byte_of_ctrl(self.ctrl, self.has_ball)).0,
            has_ball: ctrl_of_byte(byte_of_ctrl(self.ctrl, self.has_ball)).1,
            ..self
        }
    }
}

/// The first field that a buffer of `len` bytes is too short for, if any.
/// The length byte itself, at offset 2, is taken as read.
pub open spec fn robot_missing_field(len: nat) -> Option<PackField> {
    if len < 4 {
        Some(PackField::Id)
    } else if len < 5 {
        Some(PackField::MsgType)
    } else if len < 9 {
        Some(PackField::Pos)
    } else if len < 11 {
        Some(PackField::Angle)
    } else if len < 12 {
        Some(PackField::CtrlAndFoundBall)
    } else if len < 16 {
        Some(PackField::FoundBallPos)
    } else if len < 18 {
        Some(PackField::Velocity)
    } else if len < 20 {
        Some(PackField::VelocityAngle)
    } else if len < 21 {
        Some(PackField::PassKick)
    } else if len < 25 {
        Some(PackField::PassTargetPos)
    } else if len < 75 {
        Some(missing_barrier_field(len - 25))
    } else if len < 76 {
        Some(PackField::ComputerAc)
    } else if len < 77 {
        Some(PackField::ComputerBatteryFlag)
    } else if len < 78 {
        Some(PackField::ComputerBatteryPercent)
    } else if len < 80 {
        Some(PackField::ComputerWorkingSecondCount)
    } else if len < 81 {
        Some(PackField::ComputerCpuPercent)
    } else if len < 85 {
        Some(PackField::ComputerCpuFrequency)
    } else if len < 89 {
        Some(PackField::SoftVersion)
    } else if len < 90 {
        Some(PackField::RobotPowerVolt)
    } else if len < 91 {
        Some(PackField::RobotCharge)
    } else if len < 92 {
        Some(PackField::VideoFps)
    } else if len < 93 {
        Some(PackField::MulticastFps)
    } else {
        None
    }
}

/// The record that the fields of `bytes` spell, for a buffer long enough to
/// hold them all.
pub open spec fn robot_fields(bytes: Seq<u8>) -> RobotPackView {
    RobotPackView {
        id: bytes[3],
        msg_type: LegacyMsgType::of_code(bytes[4]),
        pos: vec2_at(bytes, 5),
        angle: i16_at(bytes, 9),
        ctrl: ctrl_of_byte(bytes[11]).0,
        has_ball: ctrl_of_byte(bytes[11]).1,
        found_ball: true,
        found_ball_pos: vec2_at(bytes, 12),
        velocity: u16_at(bytes, 16),
        velocity_angle: i16_at(bytes, 18),
        pass_kick: bool_at(bytes, 20),
        pass_target_pos: vec2_at(bytes, 21),
        barriers: barriers_at(bytes, 25),
        computer_ac: bytes[75],
        computer_battery_flag: bytes[76],
        computer_battery_percent: bytes[77],
        computer_working_second_count: u16_at(bytes, 78),
        computer_cpu_percent: bytes[80],
        computer_cpu_frequency_mhz: F32Bits { bits: u32_at(bytes, 81) },
        soft_version: F32Bits { bits: u32_at(bytes, 85) },
        robot_power_volt: bytes[89],
        robot_charge: bool_at(bytes, 90),
        video_fps: bytes[91],
        multicast_fps: bytes[92],
    }
}

/// What decoding `bytes` as a robot packet gives.
///
/// The header is skipped unread. A buffer shorter than its length byte
/// declares is refused before any field is read. Then the fields are read in
/// order, and the first one cut off is reported. Last, the final byte of the
/// buffer, wherever it stands, must be the checksum of all the bytes before
/// it.
pub open spec fn robot_decode(bytes: Seq<u8>) -> Result<RobotPackView, DecodeError> {
    if bytes.len() < 3 {
        Err(DecodeError::TruncatedField(PackField::SetLen))
    } else if bytes.len() < bytes[2] {
        Err(DecodeError::LengthMismatch)
    } else if let Some(field) = robot_missing_field(bytes.len()) {
        Err(DecodeError::TruncatedField(field))
    } else if computed_sum(bytes) != stored_sum(bytes) {
        Err(
            DecodeError::ChecksumMismatch {
                computed: computed_sum(bytes),
                expected: stored_sum(bytes),
            },
        )
    } else {
        Ok(robot_fields(bytes))
    }
}

/// The record with the given view.
pub open spec fn robot_pack_of(v: RobotPackView) -> LegacyPackFromRobot {
    choose|pack: LegacyPackFromRobot| pack@ == v
}

/// A record is determined by its view.
pub proof fn lemma_robot_pack_of_view(pack: LegacyPackFromRobot)
    ensures
        robot_pack_of(pack@) == pack,
{
    let q = robot_pack_of(pack@);
    assert(q@ == pack@);
    assert(q.barriers =~= pack.barriers);
}

/// What decoding `bytes` gives, as a record.
pub open spec fn robot_decode_pack(bytes: Seq<u8>) -> Result<LegacyPackFromRobot, DecodeError> {
    match robot_decode(bytes) {
        Ok(v) => Ok(robot_pack_of(v)),
        Err(e) => Err(e),
    }
}

impl LegacyPackFromRobot {
    /// Decodes a robot packet.
    pub fn try_from_bytes(bytes: &[u8]) -> (r: Result<Self, DecodeError>)
        ensures
            match r {
                Ok(pack) => robot_decode(bytes@) == Ok::<RobotPackView, DecodeError>(pack@),
                Err(e) => robot_decode(bytes@) == Err::<RobotPackView, DecodeError>(e),
            },
            r == robot_decode_pack(bytes@),
    {
        let mut reader = ByteReader::new(bytes);
        let _ = reader.next_u16();
        let set_len = need(reader.next_u8(), PackField::SetLen)?;
        if bytes.len() < set_len as usize {
            return Err(DecodeError::LengthMismatch);
        }
        let id = need(reader.next_u8(), PackField::Id)?;
        let msg_type = LegacyMsgType::from_u8(need(reader.next_u8(), PackField::MsgType)?);
        let pos = need(reader.next_i16vec2(), PackField::Pos)?;
        let angle = need(reader.next_i16(), PackField::Angle)?;
        let (ctrl, has_ball) = decode_ctrl(need(reader.next_u8(), PackField::CtrlAndFoundBall)?);
        let found_ball_pos = need(reader.next_i16vec2(), PackField::FoundBallPos)?;
        let velocity = need(reader.next_u16(), PackField::Velocity)?;
        let velocity_angle = need(reader.next_i16(), PackField::VelocityAngle)?;
        let pass_kick = need(reader.next_bool(), PackField::PassKick)?;
        let pass_target_pos = need(reader.next_i16vec2(), PackField::PassTargetPos)?;
        let barriers = read_barriers(&mut reader)?;
        let computer_ac = need(reader.next_u8(), PackField::ComputerAc)?;
        let computer_battery_flag = need(reader.next_u8(), PackField::ComputerBatteryFlag)?;
        let computer_battery_percent = need(reader.next_u8(), PackField::ComputerBatteryPercent)?;
        let computer_working_second_count = need(
            reader.next_u16(),
            PackField::ComputerWorkingSecondCount,
        )?;
        let computer_cpu_percent = need(reader.next_u8(), PackField::ComputerCpuPercent)?;
        let computer_cpu_frequency_mhz = need(reader.next_f32(), PackField::ComputerCpuFrequency)?;
        let soft_version = need(reader.next_f32(), PackField::SoftVersion)?;
        let robot_power_volt = need(reader.next_u8(), PackField::RobotPowerVolt)?;
        let robot_charge = need(reader.next_bool(), PackField::RobotCharge)?;
        let video_fps = need(reader.next_u8(), PackField::VideoFps)?;
        let multicast_fps = need(reader.next_u8(), PackField::MulticastFps)?;
        check_sum(bytes)?;
        let pack = LegacyPackFromRobot {
            id,
            msg_type,
            pos,
            angle,
            ctrl,
            has_ball,
            found_ball: true,
            found_ball_pos,
            velocity,
            velocity_angle,
            pass_kick,
            pass_target_pos,
            barriers,
            computer_ac,
            computer_battery_flag,
            computer_battery_percent,
            computer_working_second_count,
            computer_cpu_percent,
            computer_cpu_frequency_mhz,
            soft_version,
            robot_power_volt,
            robot_charge,
            video_fps,
            multicast_fps,
        };
        proof {
            lemma_robot_pack_of_view(pack);
        }
        Ok(pack)
    }

    /// Encodes the record.
    pub fn to_bytes(&self) -> (out: [u8; PACK_FROM_ROBOT_BYTE_LENGTH])
        ensures
            out@ == self@.wire(),
    {
        let mut w = PackWriter::<PACK_FROM_ROBOT_BYTE_LENGTH>::new();
        w.put_u8(HEADER_HI);
        w.put_u8(HEADER_LO);
        assert(w.written() =~= seq![HEADER_HI, HEADER_LO]);
        w.put_u8(PACK_FROM_ROBOT_BYTE_LENGTH as u8);
        w.put_u8(self.id);
        w.put_u8(self.msg_type.to_u8());
        w.put_i16vec2(self.pos);
        w.put_i16(self.angle);
        w.put_u8(encode_ctrl(self.ctrl, self.has_ball));
        w.put_i16vec2(self.found_ball_pos);
        w.put_u16(self.velocity);
        w.put_i16(self.velocity_angle);
        w.put_bool(self.pass_kick);
        w.put_i16vec2(self.pass_target_pos);
        write_barriers(&mut w, &self.barriers);
        proof {
            lemma_barriers_bytes_layout(self.barriers@);
        }
        w.put_u8(self.computer_ac);
        w.put_u8(self.computer_battery_flag);
        w.put_u8(self.computer_battery_percent);
        w.put_u16(self.computer_working_second_count);
        w.put_u8(self.computer_cpu_percent);
        w.put_f32(self.computer_cpu_frequency_mhz);
        w.put_f32(self.soft_version);
        w.put_u8(self.robot_power_volt);
        w.put_bool(self.robot_charge);
        w.put_u8(self.video_fps);
        w.put_u8(self.multicast_fps);
        w.finish(0)
    }
}

impl Default for LegacyPackFromRobot {
    fn default() -> (pack: Self)
        ensures
            pack@ == RobotPackView::initial(),
    {
        let pack = LegacyPackFromRobot {
            id: 1,
            msg_type: LegacyMsgType::Teammate,
            pos: I16Vec2::new(800, 500),
            angle: 11451,
            ctrl: LegacyCtrl::Offline,
            has_ball: false,
            found_ball: true,
            found_ball_pos: I16Vec2::new(1919, 810),
            velocity: 0,
            velocity_angle: 0,
            pass_kick: true,
            pass_target_pos: I16Vec2::new(114, 514),
            barriers: no_barriers(),
            computer_ac: 11,
            computer_battery_flag: 45,
            computer_battery_percent: 14,
            computer_working_second_count: 19198,
            computer_cpu_percent: 10,
            // 1145.14
            computer_cpu_frequency_mhz: F32Bits::from_bits(0x448F_247B),
            // 0.114514
            soft_version: F32Bits::from_bits(0x3DEA_8651),
            robot_power_volt: 0,
            robot_charge: true,
            video_fps: 114,
            multicast_fps: 51,
        };
        assert(pack@.barriers =~= RobotPackView::initial().barriers);
        pack
    }
}

/// The array that holds the encoded packet.
pub open spec fn robot_wire_array(v: RobotPackView) -> [u8; PACK_FROM_ROBOT_BYTE_LENGTH] {
    choose|out: [u8; PACK_FROM_ROBOT_BYTE_LENGTH]| out@ == v.wire()
}

impl From<LegacyPackFromRobot> for [u8; PACK_FROM_ROBOT_BYTE_LENGTH] {
    fn from(val: LegacyPackFromRobot) -> (out: Self)
        ensures
            out@ == val@.wire(),
    {
        let out = val.to_bytes();
        proof {
            assert(robot_wire_array(val@)@ == out@);
            assert(robot_wire_array(val@) =~= out);
        }
        out
    }
}

impl FromSpecImpl<LegacyPackFromRobot> for [u8; PACK_FROM_ROBOT_BYTE_LENGTH] {
    open spec fn obeys_from_spec() -> bool {
        true
    }

    open spec fn from_spec(val: LegacyPackFromRobot) -> [u8; PACK_FROM_ROBOT_BYTE_LENGTH] {
        robot_wire_array(val@)
    }
}

impl TryFrom<[u8; PACK_FROM_ROBOT_BYTE_LENGTH]> for LegacyPackFromRobot {
    type Error = DecodeError;

    fn try_from(value: [u8; PACK_FROM_ROBOT_BYTE_LENGTH]) -> (r: Result<Self, DecodeError>) {
        Self::try_from_bytes(value.as_slice())
    }
}

impl TryFromSpecImpl<[u8; PACK_FROM_ROBOT_BYTE_LENGTH]> for LegacyPackFromRobot {
    open spec fn obeys_try_from_spec() -> bool {
        true
    }

    open spec fn try_from_spec(value: [u8; PACK_FROM_ROBOT_BYTE_LENGTH]) -> Result<Self, DecodeError> {
        robot_decode_pack(value@)
    }
}

} // verus!
