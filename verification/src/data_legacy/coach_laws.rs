//! What holds of every coach packet.

use vstd::prelude::*;
use crate::byte_writer::{lemma_frame_i16, lemma_frame_layout, lemma_frame_vec2, vec2_bytes};
use crate::data_legacy::barrier::{
    barriers_bytes, lemma_barriers_bytes_layout, lemma_frame_barriers,
};
use crate::data_legacy::coach::{
    coach_decode, coach_fields, coach_missing_field, extra_len, CoachPackView,
    PACK_FROM_COACH_BYTE_LENGTH, PACK_FROM_COACH_FIELD_BYTES,
};
use crate::data_legacy::codes::{LegacyCtrl, LegacyMsgType};
use crate::data_legacy::ctrl_byte::{flag_survives, lemma_flag_survives};
use crate::data_legacy::decode_error::DecodeError;
use crate::data_legacy::player::{
    lemma_frame_players, lemma_players_bytes_layout, players_bytes, LegacyPackFromCoachPlayer,
};
use crate::data_legacy::seal::{computed_sum, lemma_sum_notices_change, stored_sum};
use crate::wire::{
    bool_byte, checksum, flip_bit, i16_bytes, lemma_flip_bit_changes, HEADER_HI, HEADER_LO,
};

verus! {

/// Where the bytes of each field stand in the payload.
pub proof fn lemma_coach_payload_layout(v: CoachPackView)
    requires
        v.full(),
    ensures
        v.common().len() == 100,
        v.extra().len() == extra_len(v.ctrl),
        v.payload().len() == 100 + extra_len(v.ctrl),
        v.payload()[2] == PACK_FROM_COACH_BYTE_LENGTH,
        v.payload()[3] == v.id,
        v.payload()[4] == v.msg_type.code(),
        v.payload().subrange(5, 40) == players_bytes(v.players),
        v.payload().subrange(40, 90) == barriers_bytes(v.barriers),
        v.payload().subrange(90, 94) == vec2_bytes(v.setup_pos),
        v.payload()[94] == bool_byte(v.found_ball),
        v.payload().subrange(95, 99) == vec2_bytes(v.ball_pos_from_coach),
        v.payload()[99] == v.ctrl.code(),
        v.payload().subrange(100, 100 + extra_len(v.ctrl) as int) == v.extra(),
{
    lemma_players_bytes_layout(v.players);
    lemma_barriers_bytes_layout(v.barriers);
    let c = v.common();
    let p = v.payload();
    assert(c.len() == 100);
    assert(p.subrange(5, 40) =~= players_bytes(v.players));
    assert(p.subrange(40, 90) =~= barriers_bytes(v.barriers));
    assert(p.subrange(90, 94) =~= vec2_bytes(v.setup_pos));
    assert(p.subrange(95, 99) =~= vec2_bytes(v.ball_pos_from_coach));
    assert(p.subrange(100, 100 + extra_len(v.ctrl) as int) =~= v.extra());
}

/// An encoded record is 205 bytes long, declares that length, holds zeros
/// behind its fields, and ends with the checksum of all the bytes before
/// the last.
pub proof fn lemma_coach_wire_is_sealed(v: CoachPackView)
    requires
        v.full(),
    ensures
        v.wire().len() == PACK_FROM_COACH_BYTE_LENGTH,
        v.wire()[0] == HEADER_HI,
        v.wire()[1] == HEADER_LO,
        v.wire()[2] == PACK_FROM_COACH_BYTE_LENGTH,
        forall|i: int| 100 + extra_len(v.ctrl) <= i < 204 ==> v.wire()[i] == 0,
        v.wire()[204] == checksum(0, v.wire().subrange(0, 204)),
{
    let p = v.payload();
    let w = v.wire();
    let n = p.len() as int;
    lemma_coach_payload_layout(v);
    lemma_frame_layout(0, p, PACK_FROM_COACH_BYTE_LENGTH as nat);
    assert(w.subrange(0, n)[0] == p[0] && w.subrange(0, n)[1] == p[1] && w.subrange(0, n)[2]
        == p[2]);
    assert(w.subrange(0, 204) =~= w.drop_last());
}

/// Decoding an encoded record succeeds, and gives the record as received.
/// So a record comes back unchanged exactly when each player's ball flag is
/// one that its directive's byte can carry, and every field that the
/// directive does not need holds its initial value.
pub proof fn lemma_coach_round_trip(v: CoachPackView)
    requires
        v.full(),
    ensures
        coach_decode(v.wire()) == Ok::<CoachPackView, DecodeError>(v.as_received()),
        v.as_received() == v <==> v.survives_wire(),
{
    let p = v.payload();
    let w = v.wire();
    let n = p.len() as int;
    let e = v.extra();
    lemma_coach_payload_layout(v);
    lemma_frame_layout(0, p, PACK_FROM_COACH_BYTE_LENGTH as nat);
    assert forall|i: int| 0 <= i < n implies w[i] == p[i] by {
        assert(w.subrange(0, n)[i] == p[i]);
    }
    lemma_frame_players(w, p, 5, v.players);
    lemma_frame_barriers(w, p, 40, v.barriers);
    lemma_frame_vec2(w, p, 90, v.setup_pos);
    lemma_frame_vec2(w, p, 95, v.ball_pos_from_coach);
    v.msg_type.lemma_code_round_trip();
    v.ctrl.lemma_code_round_trip();
    match v.ctrl {
        LegacyCtrl::MoveTo => {
            assert(p.subrange(100, 104) =~= e.subrange(0, 4));
            assert(e.subrange(0, 4) =~= vec2_bytes(v.target_pos));
            assert(p.subrange(104, 106) =~= e.subrange(4, 6));
            assert(e.subrange(4, 6) =~= i16_bytes(v.target_angle));
            assert(p[106] == e[6]);
            lemma_frame_vec2(w, p, 100, v.target_pos);
            lemma_frame_i16(w, p, 104, v.target_angle);
        },
        LegacyCtrl::Defence => {
            assert(p.subrange(100, 102) =~= e.subrange(0, 2));
            assert(e.subrange(0, 2) =~= i16_bytes(v.def_dist));
            assert(p.subrange(102, 104) =~= e.subrange(2, 4));
            assert(e.subrange(2, 4) =~= i16_bytes(v.def_angle));
            lemma_frame_i16(w, p, 100, v.def_dist);
            lemma_frame_i16(w, p, 102, v.def_angle);
        },
        LegacyCtrl::Pass => {
            lemma_frame_vec2(w, p, 100, v.pass_target_pos);
        },
        LegacyCtrl::Catch => {
            lemma_frame_vec2(w, p, 100, v.catch_from_pos);
        },
        _ => {},
    }
    assert(coach_missing_field(w) is None);
    assert(coach_fields(w) == v.as_received());
    let back = v.players.map_values(|q: LegacyPackFromCoachPlayer| q.as_received());
    assert forall|k: int| 0 <= k < v.players.len() implies (back[k] == v.players[k]
        <==> flag_survives(
        (#[trigger] v.players[k]).ctrl,
        v.players[k].has_ball,
    )) by {
        lemma_flag_survives(v.players[k].ctrl, v.players[k].has_ball);
    }
    if v.survives_wire() {
        assert(back =~= v.players);
    }
    if v.as_received() == v {
        assert(back == v.players);
    }
}

/// The initial record comes back unchanged, whatever directive is put in
/// place of its own: one that needs the fields of a move, of a defence, of a
/// pass or of a catch, or one that needs none.
pub proof fn lemma_coach_initial_round_trip(ctrl: LegacyCtrl)
    ensures
        coach_decode((CoachPackView { ctrl, ..CoachPackView::initial() }).wire()) == Ok::<
            CoachPackView,
            DecodeError,
        >(CoachPackView { ctrl, ..CoachPackView::initial() }),
{
    lemma_coach_round_trip(CoachPackView { ctrl, ..CoachPackView::initial() });
}

/// A buffer that holds fewer bytes than its length byte declares is refused
/// for that, whatever else it holds.
pub proof fn lemma_coach_short_of_declared(bytes: Seq<u8>)
    requires
        bytes.len() >= 3,
        bytes.len() < bytes[2],
    ensures
        coach_decode(bytes) == Err::<CoachPackView, DecodeError>(DecodeError::LengthMismatch),
{
}

/// A buffer that is as long as it declares, and too short for the fields,
/// is refused with the first field that it cuts off. With fewer than 100
/// bytes there is always such a field; with 107 or more there is none.
pub proof fn lemma_coach_cut_off(bytes: Seq<u8>)
    requires
        3 <= bytes.len(),
        bytes[2] <= bytes.len(),
    ensures
        bytes.len() < 100 ==> coach_missing_field(bytes) is Some,
        bytes.len() >= PACK_FROM_COACH_FIELD_BYTES ==> coach_missing_field(bytes) is None,
        coach_missing_field(bytes) is None <==> bytes.len() >= 100 + extra_len(
            LegacyCtrl::of_code(bytes[99]),
        ),
        coach_missing_field(bytes) matches Some(field) ==> coach_decode(bytes) == Err::<
            CoachPackView,
            DecodeError,
        >(DecodeError::TruncatedField(field)),
{
}

/// No code byte makes a decode fail. A buffer is accepted exactly when it
/// is long enough for the fields that its directive needs, is as long as it
/// declares, and ends with its checksum. A message type or directive byte
/// outside its table gives the sentinel, and, as every directive that needs
/// no more, asks for no bytes after it.
pub proof fn lemma_coach_tolerates_unknown_codes(bytes: Seq<u8>)
    ensures
        coach_decode(bytes) is Ok <==> bytes.len() >= 100 && bytes.len() >= 100 + extra_len(
            LegacyCtrl::of_code(bytes[99]),
        ) && bytes[2] <= bytes.len() && computed_sum(bytes) == stored_sum(bytes),
        coach_decode(bytes) matches Ok(v) ==> {
            &&& v.msg_type == LegacyMsgType::of_code(bytes[4])
            &&& !LegacyMsgType::is_code(bytes[4]) ==> v.msg_type == LegacyMsgType::UndefinedVal
            &&& v.ctrl == LegacyCtrl::of_code(bytes[99])
            &&& !LegacyCtrl::is_code(bytes[99]) ==> v.ctrl == LegacyCtrl::UndefinedVal
        },
        bytes.len() >= 100 && !LegacyCtrl::is_code(bytes[99]) ==> extra_len(
            LegacyCtrl::of_code(bytes[99]),
        ) == 0,
{
}

/// Changing any one byte of a buffer that decodes makes the decode fail: on
/// the length, where the length byte was raised above the buffer's length;
/// else on a field, where the directive's byte was changed to one that needs
/// more bytes than there are, which a buffer of 107 bytes or more rules out;
/// else on the checksum.
pub proof fn lemma_coach_corruption_detected(bytes: Seq<u8>, at: int, b: u8)
    requires
        coach_decode(bytes) is Ok,
        0 <= at < bytes.len(),
        b != bytes[at],
    ensures
        coach_decode(bytes.update(at, b)) == Err::<CoachPackView, DecodeError>(
            if at == 2 && bytes.len() < b {
                DecodeError::LengthMismatch
            } else if let Some(field) = coach_missing_field(bytes.update(at, b)) {
                DecodeError::TruncatedField(field)
            } else {
                DecodeError::ChecksumMismatch {
                    computed: computed_sum(bytes.update(at, b)),
                    expected: stored_sum(bytes.update(at, b)),
                }
            },
        ),
        bytes.len() >= PACK_FROM_COACH_FIELD_BYTES || at != 99 ==> coach_missing_field(
            bytes.update(at, b),
        ) is None,
{
    lemma_sum_notices_change(bytes, at, b);
}

/// Flipping any one bit of a buffer that decodes makes the decode fail, in
/// the same way as any other change of one byte does.
pub proof fn lemma_coach_bit_flip_detected(bytes: Seq<u8>, at: int, bit: u8)
    requires
        coach_decode(bytes) is Ok,
        0 <= at < bytes.len(),
        bit < 8,
    ensures
        coach_decode(bytes.update(at, flip_bit(bytes[at], bit))) == Err::<
            CoachPackView,
            DecodeError,
        >(
            if at == 2 && bytes.len() < flip_bit(bytes[at], bit) {
                DecodeError::LengthMismatch
            } else if let Some(field) = coach_missing_field(
                bytes.update(at, flip_bit(bytes[at], bit)),
            ) {
                DecodeError::TruncatedField(field)
            } else {
                DecodeError::ChecksumMismatch {
                    computed: computed_sum(bytes.update(at, flip_bit(bytes[at], bit))),
                    expected: stored_sum(bytes.update(at, flip_bit(bytes[at], bit))),
                }
            },
        ),
        bytes.len() >= PACK_FROM_COACH_FIELD_BYTES || at != 99 ==> coach_missing_field(
            bytes.update(at, flip_bit(bytes[at], bit)),
        ) is None,
{
    lemma_flip_bit_changes(bytes[at], bit);
    lemma_coach_corruption_detected(bytes, at, flip_bit(bytes[at], bit));
}

} // verus!
