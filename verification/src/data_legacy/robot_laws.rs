//! What holds of every robot packet.

use vstd::prelude::*;
use crate::byte_writer::{
    lemma_frame_i16, lemma_frame_layout, lemma_frame_u16, lemma_frame_u32, lemma_frame_vec2,
    vec2_bytes,
};
use crate::data_legacy::barrier::{
    barriers_bytes, lemma_barriers_bytes_layout, lemma_frame_barriers,
};
use crate::data_legacy::codes::{LegacyCtrl, LegacyMsgType};
use crate::data_legacy::ctrl_byte::{byte_of_ctrl, lemma_flag_survives, lemma_high_code_drops_flag};
use crate::data_legacy::decode_error::DecodeError;
use crate::data_legacy::robot::{
    robot_decode, robot_fields, robot_missing_field, RobotPackView, PACK_FROM_ROBOT_BYTE_LENGTH,
    PACK_FROM_ROBOT_FIELD_BYTES,
};
use crate::data_legacy::seal::{computed_sum, lemma_sum_notices_change, stored_sum};
use crate::wire::{
    bool_byte, checksum, flip_bit, i16_bytes, lemma_flip_bit_changes, u16_bytes, u32_bytes,
    HEADER_HI, HEADER_LO,
};

verus! {

/// Where the bytes of each field stand in the payload.
pub proof fn lemma_robot_payload_layout(v: RobotPackView)
    requires
        v.full(),
    ensures
        v.payload().len() == PACK_FROM_ROBOT_FIELD_BYTES,
        v.payload()[2] == PACK_FROM_ROBOT_BYTE_LENGTH,
        v.payload()[3] == v.id,
        v.payload()[4] == v.msg_type.code(),
        v.payload().subrange(5, 9) == vec2_bytes(v.pos),
        v.payload().subrange(9, 11) == i16_bytes(v.angle),
        v.payload()[11] == byte_of_ctrl(v.ctrl, v.has_ball),
        v.payload().subrange(12, 16) == vec2_bytes(v.found_ball_pos),
        v.payload().subrange(16, 18) == u16_bytes(v.velocity),
        v.payload().subrange(18, 20) == i16_bytes(v.velocity_angle),
        v.payload()[20] == bool_byte(v.pass_kick),
        v.payload().subrange(21, 25) == vec2_bytes(v.pass_target_pos),
        v.payload().subrange(25, 75) == barriers_bytes(v.barriers),
        v.payload()[75] == v.computer_ac,
        v.payload()[76] == v.computer_battery_flag,
        v.payload()[77] == v.computer_battery_percent,
        v.payload().subrange(78, 80) == u16_bytes(v.computer_working_second_count),
        v.payload()[80] == v.computer_cpu_percent,
        v.payload().subrange(81, 85) == u32_bytes(v.computer_cpu_frequency_mhz.bits),
        v.payload().subrange(85, 89) == u32_bytes(v.soft_version.bits),
        v.payload()[89] == v.robot_power_volt,
        v.payload()[90] == bool_byte(v.robot_charge),
        v.payload()[91] == v.video_fps,
        v.payload()[92] == v.multicast_fps,
{
    lemma_barriers_bytes_layout(v.barriers);
    let p = v.payload();
    assert(p.len() == 93);
    assert(p.subrange(5, 9) =~= vec2_bytes(v.pos));
    assert(p.subrange(9, 11) =~= i16_bytes(v.angle));
    assert(p.subrange(12, 16) =~= vec2_bytes(v.found_ball_pos));
    assert(p.subrange(16, 18) =~= u16_bytes(v.velocity));
    assert(p.subrange(18, 20) =~= i16_bytes(v.velocity_angle));
    assert(p.subrange(21, 25) =~= vec2_bytes(v.pass_target_pos));
    assert(p.subrange(25, 75) =~= barriers_bytes(v.barriers));
    assert(p.subrange(78, 80) =~= u16_bytes(v.computer_working_second_count));
    assert(p.subrange(81, 85) =~= u32_bytes(v.computer_cpu_frequency_mhz.bits));
    assert(p.subrange(85, 89) =~= u32_bytes(v.soft_version.bits));
}

/// An encoded record is 176 bytes long, declares that length, holds zeros
/// behind its fields, and ends with the checksum of all the bytes before
/// the last.
pub proof fn lemma_robot_wire_is_sealed(v: RobotPackView)
    requires
        v.full(),
    ensures
        v.wire().len() == PACK_FROM_ROBOT_BYTE_LENGTH,
        v.wire()[0] == HEADER_HI,
        v.wire()[1] == HEADER_LO,
        v.wire()[2] == PACK_FROM_ROBOT_BYTE_LENGTH,
        forall|i: int| PACK_FROM_ROBOT_FIELD_BYTES <= i < 175 ==> v.wire()[i] == 0,
        v.wire()[175] == checksum(0, v.wire().subrange(0, 175)),
{
    let p = v.payload();
    let w = v.wire();
    lemma_robot_payload_layout(v);
    lemma_frame_layout(0, p, PACK_FROM_ROBOT_BYTE_LENGTH as nat);
    assert(w.subrange(0, 93)[0] == p[0] && w.subrange(0, 93)[1] == p[1] && w.subrange(0, 93)[2]
        == p[2]);
    assert(w.subrange(0, 175) =~= w.drop_last());
}

/// Decoding an encoded record succeeds, and gives the record as received.
/// So a record comes back unchanged exactly when it says that the ball is
/// seen and its ball flag is one that its directive's byte can carry.
pub proof fn lemma_robot_round_trip(v: RobotPackView)
    requires
        v.full(),
    ensures
        robot_decode(v.wire()) == Ok::<RobotPackView, DecodeError>(v.as_received()),
        v.as_received() == v <==> v.survives_wire(),
{
    let p = v.payload();
    let w = v.wire();
    lemma_robot_payload_layout(v);
    lemma_frame_layout(0, p, PACK_FROM_ROBOT_BYTE_LENGTH as nat);
    assert forall|i: int| 0 <= i < 93 implies w[i] == p[i] by {
        assert(w.subrange(0, 93)[i] == p[i]);
    }
    lemma_frame_vec2(w, p, 5, v.pos);
    lemma_frame_i16(w, p, 9, v.angle);
    lemma_frame_vec2(w, p, 12, v.found_ball_pos);
    lemma_frame_u16(w, p, 16, v.velocity);
    lemma_frame_i16(w, p, 18, v.velocity_angle);
    lemma_frame_vec2(w, p, 21, v.pass_target_pos);
    lemma_frame_barriers(w, p, 25, v.barriers);
    lemma_frame_u16(w, p, 78, v.computer_working_second_count);
    lemma_frame_u32(w, p, 81, v.computer_cpu_frequency_mhz.bits);
    lemma_frame_u32(w, p, 85, v.soft_version.bits);
    v.msg_type.lemma_code_round_trip();
    lemma_flag_survives(v.ctrl, v.has_ball);
    assert(robot_fields(w) == v.as_received());
}

/// The initial record comes back unchanged, whatever directive is put in
/// place of its own.
pub proof fn lemma_robot_initial_round_trip(ctrl: LegacyCtrl)
    ensures
        robot_decode((RobotPackView { ctrl, ..RobotPackView::initial() }).wire()) == Ok::<
            RobotPackView,
            DecodeError,
        >(RobotPackView { ctrl, ..RobotPackView::initial() }),
{
    lemma_robot_round_trip(RobotPackView { ctrl, ..RobotPackView::initial() });
}

/// A record with a directive whose code is 128 or more comes back without
/// its ball flag, whatever the flag was: on such a code the flag's bit is
/// part of the code.
pub proof fn lemma_robot_high_code_loses_flag(v: RobotPackView)
    requires
        v.full(),
        v.ctrl.code() >= 128,
    ensures
        robot_decode(v.wire()) matches Ok(back) && back.ctrl == v.ctrl && !back.has_ball,
{
    lemma_robot_round_trip(v);
    lemma_high_code_drops_flag(v.ctrl, v.has_ball);
}

/// A buffer that holds fewer bytes than its length byte declares is refused
/// for that, whatever else it holds.
pub proof fn lemma_robot_short_of_declared(bytes: Seq<u8>)
    requires
        bytes.len() >= 3,
        bytes.len() < bytes[2],
    ensures
        robot_decode(bytes) == Err::<RobotPackView, DecodeError>(DecodeError::LengthMismatch),
{
}

/// A buffer that is as long as it declares, and too short for the fields,
/// is refused with the first field that it cuts off.
pub proof fn lemma_robot_cut_off(bytes: Seq<u8>)
    requires
        3 <= bytes.len() < PACK_FROM_ROBOT_FIELD_BYTES,
        bytes[2] <= bytes.len(),
    ensures
        robot_missing_field(bytes.len()) is Some,
        robot_decode(bytes) == Err::<RobotPackView, DecodeError>(
            DecodeError::TruncatedField(robot_missing_field(bytes.len())->Some_0),
        ),
{
}

/// No code byte makes a decode fail. A buffer is accepted exactly when it
/// is long enough for the fields, is as long as it declares, and ends with
/// its checksum. A message type byte outside the table gives the sentinel. A
/// directive byte outside the table gives its top bit to the ball flag, and
/// the rest resolves the same way.
pub proof fn lemma_robot_tolerates_unknown_codes(bytes: Seq<u8>)
    ensures
        robot_decode(bytes) is Ok <==> bytes.len() >= PACK_FROM_ROBOT_FIELD_BYTES && bytes[2]
            <= bytes.len()
            && computed_sum(bytes) == stored_sum(bytes),
        robot_decode(bytes) matches Ok(v) ==> {
            &&& v.msg_type == LegacyMsgType::of_code(bytes[4])
            &&& !LegacyMsgType::is_code(bytes[4]) ==> v.msg_type == LegacyMsgType::UndefinedVal
            &&& !LegacyCtrl::is_code(bytes[11]) ==> v.has_ball == (bytes[11] >= 128) && v.ctrl
                == LegacyCtrl::of_code((bytes[11] % 128) as u8)
            &&& !LegacyCtrl::is_code(bytes[11]) && !LegacyCtrl::is_code((bytes[11] % 128) as u8)
                ==> v.ctrl == LegacyCtrl::UndefinedVal
        },
{
}

/// Changing any one byte of a buffer that decodes makes the decode fail: on
/// the checksum, or, where the length byte was raised above the buffer's
/// length, on the length.
pub proof fn lemma_robot_corruption_detected(bytes: Seq<u8>, at: int, b: u8)
    requires
        robot_decode(bytes) is Ok,
        0 <= at < bytes.len(),
        b != bytes[at],
    ensures
        robot_decode(bytes.update(at, b)) == Err::<RobotPackView, DecodeError>(
            if at == 2 && bytes.len() < b {
                DecodeError::LengthMismatch
            } else {
                DecodeError::ChecksumMismatch {
                    computed: computed_sum(bytes.update(at, b)),
                    expected: stored_sum(bytes.update(at, b)),
                }
            },
        ),
{
    lemma_sum_notices_change(bytes, at, b);
}

/// Flipping any one bit of a buffer that decodes makes the decode fail: on
/// the checksum, or, where the flip raised the length byte above the
/// buffer's length, on the length.
pub proof fn lemma_robot_bit_flip_detected(bytes: Seq<u8>, at: int, bit: u8)
    requires
        robot_decode(bytes) is Ok,
        0 <= at < bytes.len(),
        bit < 8,
    ensures
        robot_decode(bytes.update(at, flip_bit(bytes[at], bit))) == Err::<
            RobotPackView,
            DecodeError,
        >(
            if at == 2 && bytes.len() < flip_bit(bytes[at], bit) {
                DecodeError::LengthMismatch
            } else {
                DecodeError::ChecksumMismatch {
                    computed: computed_sum(bytes.update(at, flip_bit(bytes[at], bit))),
                    expected: stored_sum(bytes.update(at, flip_bit(bytes[at], bit))),
                }
            },
        ),
{
    lemma_flip_bit_changes(bytes[at], bit);
    lemma_robot_corruption_detected(bytes, at, flip_bit(bytes[at], bit));
}

} // verus!
