//! The byte in which a directive shares its top bit with a "has the ball"
//! flag.
//!
//! The flag is set on the directive's code with a bitwise or. It is read
//! back only from a byte that is no directive's code. So it is lost on the
//! codes of 128 or more, where the bit is part of the code, and on the two
//! directives whose flagged byte is the code of another. Robots in the field
//! depend on the byte as it is.

use vstd::prelude::*;
use crate::data_legacy::codes::LegacyCtrl;

verus! {

/// The bit of a directive byte that says "has the ball".
pub const HAS_BALL_BIT: u8 = 0x80;

/// The byte written for a directive and its flag: the directive's code with
/// the flag's bit set on it. On a code of 128 or more that bit is set
/// already, and the flag leaves no trace.
pub open spec fn byte_of_ctrl(ctrl: LegacyCtrl, has_ball: bool) -> u8 {
    if has_ball && ctrl.code() < 128 {
        (ctrl.code() + 128) as u8
    } else {
        ctrl.code()
    }
}

/// The directive and flag read from a byte. A byte that is a directive's
/// code is that directive, without the flag, whatever its top bit. Any other
/// byte gives its top bit to the flag and the rest to the directive.
pub open spec fn ctrl_of_byte(b: u8) -> (LegacyCtrl, bool) {
    if LegacyCtrl::of_code(b) != LegacyCtrl::UndefinedVal {
        (LegacyCtrl::of_code(b), false)
    } else if b >= 128 {
        (LegacyCtrl::of_code((b - 128) as u8), true)
    } else {
        (LegacyCtrl::UndefinedVal, false)
    }
}

/// Whether a directive and its flag are read back as they were written.
pub open spec fn flag_survives(ctrl: LegacyCtrl, has_ball: bool) -> bool {
    has_ball ==> ctrl.code() < 128 && ctrl != LegacyCtrl::GoalKickPrime && ctrl
        != LegacyCtrl::UndefinedVal
}

/// The byte written is the code with the flag's bit set on it by a bitwise
/// or.
pub proof fn lemma_byte_of_ctrl_is_or(ctrl: LegacyCtrl, has_ball: bool)
    ensures
        byte_of_ctrl(ctrl, has_ball) == ctrl.code() | if has_ball {
            HAS_BALL_BIT
        } else {
            0u8
        },
{
    let code = ctrl.code();
    assert(code | 0 == code) by (bit_vector);
    assert(code < 128 ==> code | 0x80 == code + 128) by (bit_vector);
    assert(code >= 128 ==> code | 0x80 == code) by (bit_vector);
}

/// Of a byte that is no directive's code, the flag is the top bit and the
/// directive is what the other seven bits resolve to.
pub proof fn lemma_ctrl_of_byte_parts_bits(b: u8)
    requires
        LegacyCtrl::of_code(b) == LegacyCtrl::UndefinedVal,
    ensures
        ctrl_of_byte(b).1 == (b & HAS_BALL_BIT != 0),
        ctrl_of_byte(b).0 == LegacyCtrl::of_code(b & 0x7f),
{
    assert((b & 0x80 != 0) == (b >= 128)) by (bit_vector);
    assert(b >= 128 ==> b & 0x7f == b - 128) by (bit_vector);
    assert(b < 128 ==> b & 0x7f == b) by (bit_vector);
}

/// A directive and its flag come back from their byte exactly when
/// `flag_survives` says so. The flag is lost on the two codes of 128 or more,
/// and on the two directives whose flagged byte is the code of another.
pub proof fn lemma_flag_survives(ctrl: LegacyCtrl, has_ball: bool)
    ensures
        ctrl_of_byte(byte_of_ctrl(ctrl, has_ball)) == (ctrl, has_ball) <==> flag_survives(
            ctrl,
            has_ball,
        ),
        ctrl_of_byte(byte_of_ctrl(ctrl, false)) == (ctrl, false),
{
}

/// With a code of 128 or more the flag is dropped and the directive kept.
pub proof fn lemma_high_code_drops_flag(ctrl: LegacyCtrl, has_ball: bool)
    requires
        ctrl.code() >= 128,
    ensures
        ctrl_of_byte(byte_of_ctrl(ctrl, has_ball)) == (ctrl, false),
{
}

/// Folds the flag into the directive's byte.
pub fn encode_ctrl(ctrl: LegacyCtrl, has_ball: bool) -> (b: u8)
    ensures
        b == byte_of_ctrl(ctrl, has_ball),
{
    let code = ctrl.to_u8();
    let flag: u8 = if has_ball {
        HAS_BALL_BIT
    } else {
        0
    };
    proof {
        lemma_byte_of_ctrl_is_or(ctrl, has_ball);
    }
    code | flag
}

/// Resolves a directive byte: by its code if it is one, else by parting the
/// flag's bit from the rest.
pub fn decode_ctrl(b: u8) -> (r: (LegacyCtrl, bool))
    ensures
        r == ctrl_of_byte(b),
{
    match LegacyCtrl::from_u8(b) {
        LegacyCtrl::UndefinedVal => {
            proof {
                lemma_ctrl_of_byte_parts_bits(b);
            }
            let has_ball = (b & HAS_BALL_BIT) != 0;
            let rest: u8 = if has_ball {
                b - HAS_BALL_BIT
            } else {
                b
            };
            (LegacyCtrl::from_u8(rest), has_ball)
        },
        exact => (exact, false),
    }
}

} // verus!
