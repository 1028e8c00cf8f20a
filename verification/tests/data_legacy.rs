use bigherox_robocup::data_legacy::{
    DecodeError, LegacyCtrl, LegacyMsgType, LegacyPackBarrier, LegacyPackFromCoach,
    LegacyPackFromCoachPlayer, LegacyPackFromRobot, PackField,
};
use bigherox_robocup::vector::{F32Bits, I16Vec2};

fn wrapping_sum(bytes: &[u8]) -> u8 {
    bytes.iter().fold(0u8, |sum, b| sum.wrapping_add(*b))
}

fn seal(bytes: &mut [u8]) {
    let last = bytes.len() - 1;
    bytes[last] = wrapping_sum(&bytes[..last]);
}

#[test]
fn round_convert_robot() {
    let original_data: LegacyPackFromRobot = Default::default();
    let convert_bytes = original_data.to_bytes();
    let new_data = LegacyPackFromRobot::try_from_bytes(&convert_bytes)
        .expect("Failed to read data from bytes!");
    assert_eq!(original_data, new_data);
}

#[test]
fn round_convert_coach() {
    let original_data: LegacyPackFromCoach = Default::default();
    let convert_bytes = original_data.to_bytes();
    let new_data = LegacyPackFromCoach::try_from_bytes(&convert_bytes)
        .expect("Failed to read data from bytes!");
    assert_eq!(original_data, new_data);
}

#[test]
fn robot_default_values() {
    let pack = LegacyPackFromRobot::default();
    assert_eq!(pack.id, 1);
    assert_eq!(pack.msg_type, LegacyMsgType::Teammate);
    assert_eq!(pack.pos, I16Vec2::new(800, 500));
    assert_eq!(pack.angle, 11451);
    assert_eq!(pack.ctrl, LegacyCtrl::Offline);
    assert!(!pack.has_ball);
    assert!(pack.found_ball);
    assert_eq!(pack.found_ball_pos, I16Vec2::new(1919, 810));
    assert_eq!(pack.velocity, 0);
    assert_eq!(pack.velocity_angle, 0);
    assert!(pack.pass_kick);
    assert_eq!(pack.pass_target_pos, I16Vec2::new(114, 514));
    assert_eq!(pack.barriers, [LegacyPackBarrier::default(); 10]);
    assert_eq!(pack.computer_ac, 11);
    assert_eq!(pack.computer_battery_flag, 45);
    assert_eq!(pack.computer_battery_percent, 14);
    assert_eq!(pack.computer_working_second_count, 19198);
    assert_eq!(pack.computer_cpu_percent, 10);
    assert_eq!(f32::from_bits(pack.computer_cpu_frequency_mhz.to_bits()), 1145.14f32);
    assert_eq!(f32::from_bits(pack.soft_version.to_bits()), 0.114514f32);
    assert_eq!(pack.robot_power_volt, 0);
    assert!(pack.robot_charge);
    assert_eq!(pack.video_fps, 114);
    assert_eq!(pack.multicast_fps, 51);
}

#[test]
fn coach_default_values() {
    let pack = LegacyPackFromCoach::default();
    assert_eq!(pack.id, 1);
    assert_eq!(pack.msg_type, LegacyMsgType::Cmd);
    assert_eq!(pack.players, [LegacyPackFromCoachPlayer::default(); 5]);
    assert_eq!(pack.players[0].ctrl, LegacyCtrl::UndefinedVal);
    assert!(!pack.players[0].has_ball);
    assert_eq!(pack.barriers, [LegacyPackBarrier::default(); 10]);
    assert_eq!(pack.setup_pos, I16Vec2::new(800, 900));
    assert!(pack.found_ball);
    assert_eq!(pack.ball_pos_from_coach, I16Vec2::new(800, 500));
    assert_eq!(pack.ctrl, LegacyCtrl::Offline);
    assert_eq!(pack.target_pos, I16Vec2::new(1600, 400));
    assert_eq!(pack.target_angle, 0x7fff);
    assert_eq!(pack.speed, 9);
    assert_eq!(pack.def_angle, 0x3fff);
    assert_eq!(pack.def_dist, 100);
    assert_eq!(pack.pass_target_pos, I16Vec2::new(800, 200));
    assert_eq!(pack.catch_from_pos, I16Vec2::new(400, 500));
}

#[test]
fn robot_example_vector() {
    let pack = LegacyPackFromRobot::default();
    let bytes = pack.to_bytes();
    assert_eq!(bytes.len(), 176);
    let fields: [u8; 93] = [
        85, 170, 176, 1, 4, 3, 32, 1, 244, 44, 187, 255, 7, 127, 3, 42, 0, 0, 0, 0, 1, 0, 114, 2,
        2, 0, 0, 0, 0, 0, 0, 0, 0, 0, 0, 0, 0, 0, 0, 0, 0, 0, 0, 0, 0, 0, 0, 0, 0, 0, 0, 0, 0, 0,
        0, 0, 0, 0, 0, 0, 0, 0, 0, 0, 0, 0, 0, 0, 0, 0, 0, 0, 0, 0, 0, 11, 45, 14, 74, 254, 10,
        68, 143, 36, 123, 61, 234, 134, 81, 0, 1, 114, 51,
    ];
    assert_eq!(&bytes[..93], &fields[..]);
    assert!(bytes[93..175].iter().all(|b| *b == 0));
    assert_eq!(bytes[175], 138);
    assert_eq!(bytes[175], wrapping_sum(&bytes[..175]));
}

#[test]
fn coach_example_vector() {
    let pack = LegacyPackFromCoach::default();
    let bytes = pack.to_bytes();
    assert_eq!(bytes.len(), 205);
    let fields: [u8; 100] = [
        85, 170, 205, 1, 2, 127, 0, 0, 0, 0, 0, 0, 127, 0, 0, 0, 0, 0, 0, 127, 0, 0, 0, 0, 0, 0,
        127, 0, 0, 0, 0, 0, 0, 127, 0, 0, 0, 0, 0, 0, 0, 0, 0, 0, 0, 0, 0, 0, 0, 0, 0, 0, 0, 0, 0,
        0, 0, 0, 0, 0, 0, 0, 0, 0, 0, 0, 0, 0, 0, 0, 0, 0, 0, 0, 0, 0, 0, 0, 0, 0, 0, 0, 0, 0, 0,
        0, 0, 0, 0, 0, 3, 32, 3, 132, 1, 3, 32, 1, 244, 255,
    ];
    assert_eq!(&bytes[..100], &fields[..]);
    assert!(bytes[100..204].iter().all(|b| *b == 0));
    assert_eq!(bytes[204], 12);
}

#[test]
fn coach_move_to_bytes() {
    let mut pack = LegacyPackFromCoach::default();
    pack.ctrl = LegacyCtrl::MoveTo;
    let bytes = pack.to_bytes();
    assert_eq!(&bytes[99..108], &[11u8, 6, 64, 1, 144, 127, 255, 9, 0][..]);
    assert_eq!(bytes[204], 118);
}

#[test]
fn coach_defence_writes_distance_then_angle() {
    let mut pack = LegacyPackFromCoach::default();
    pack.ctrl = LegacyCtrl::Defence;
    let bytes = pack.to_bytes();
    assert_eq!(&bytes[99..105], &[3u8, 0, 100, 63, 255, 0][..]);
    assert_eq!(bytes[204], 178);
    let back = LegacyPackFromCoach::try_from_bytes(&bytes).unwrap();
    assert_eq!(back.def_dist, 100);
    assert_eq!(back.def_angle, 0x3fff);
}

#[test]
fn coach_round_trip_every_variant() {
    for ctrl in [
        LegacyCtrl::MoveTo,
        LegacyCtrl::Defence,
        LegacyCtrl::Pass,
        LegacyCtrl::Catch,
        LegacyCtrl::Offline,
        LegacyCtrl::Stop,
        LegacyCtrl::UndefinedVal,
    ] {
        let mut pack = LegacyPackFromCoach::default();
        pack.ctrl = ctrl;
        let bytes = pack.to_bytes();
        assert_eq!(bytes.len(), 205);
        assert_eq!(LegacyPackFromCoach::try_from_bytes(&bytes), Ok(pack));
    }
}

#[test]
fn coach_round_trip_changed_fields() {
    let mut pack = LegacyPackFromCoach::default();
    pack.id = 7;
    pack.msg_type = LegacyMsgType::Kick;
    pack.players[0] = LegacyPackFromCoachPlayer {
        ctrl: LegacyCtrl::Attack,
        has_ball: true,
        pos: I16Vec2::new(-1, 32767),
        angle: -32768,
    };
    pack.players[4] = LegacyPackFromCoachPlayer {
        ctrl: LegacyCtrl::Goalkeep,
        has_ball: false,
        pos: I16Vec2::new(-900, 0),
        angle: 180,
    };
    pack.barriers[3] = LegacyPackBarrier { size: 40, pos: I16Vec2::new(-300, 250) };
    pack.barriers[9] = LegacyPackBarrier { size: 255, pos: I16Vec2::new(1, -1) };
    pack.setup_pos = I16Vec2::new(-800, -900);
    pack.found_ball = false;
    pack.ball_pos_from_coach = I16Vec2::new(12, -34);
    pack.ctrl = LegacyCtrl::MoveTo;
    pack.target_pos = I16Vec2::new(-1600, 1);
    pack.target_angle = -2;
    pack.speed = 200;
    let bytes = pack.to_bytes();
    assert_eq!(bytes[5], 1 | 0x80);
    assert_eq!(&bytes[6..12], &[0xFFu8, 0xFF, 0x7F, 0xFF, 0x80, 0x00][..]);
    assert_eq!(LegacyPackFromCoach::try_from_bytes(&bytes), Ok(pack));
}

#[test]
fn coach_inactive_fields_come_back_initial() {
    let mut pack = LegacyPackFromCoach::default();
    pack.ctrl = LegacyCtrl::Pass;
    pack.pass_target_pos = I16Vec2::new(5, 6);
    pack.target_pos = I16Vec2::new(1, 2);
    pack.def_dist = 77;
    pack.catch_from_pos = I16Vec2::new(3, 4);
    let back = LegacyPackFromCoach::try_from_bytes(&pack.to_bytes()).unwrap();
    let initial = LegacyPackFromCoach::default();
    assert_eq!(back.pass_target_pos, I16Vec2::new(5, 6));
    assert_eq!(back.target_pos, initial.target_pos);
    assert_eq!(back.def_dist, initial.def_dist);
    assert_eq!(back.catch_from_pos, initial.catch_from_pos);
}

#[test]
fn robot_round_trip_changed_fields() {
    let mut pack = LegacyPackFromRobot::default();
    pack.id = 5;
    pack.msg_type = LegacyMsgType::Obst;
    pack.pos = I16Vec2::new(-800, -500);
    pack.angle = -11451;
    pack.ctrl = LegacyCtrl::Catch;
    pack.has_ball = true;
    pack.found_ball_pos = I16Vec2::new(-32768, 32767);
    pack.velocity = 65535;
    pack.velocity_angle = -1;
    pack.pass_kick = false;
    pack.pass_target_pos = I16Vec2::new(256, -256);
    for (i, barrier) in pack.barriers.iter_mut().enumerate() {
        *barrier = LegacyPackBarrier {
            size: i as u8 + 1,
            pos: I16Vec2::new(100 * i as i16, -100 * i as i16),
        };
    }
    pack.computer_working_second_count = 0xFFFE;
    pack.computer_cpu_frequency_mhz = F32Bits::from_bits(3.5f32.to_bits());
    pack.soft_version = F32Bits::from_bits(0xFFFF_FFFF);
    pack.robot_charge = false;
    let bytes = pack.to_bytes();
    assert_eq!(bytes[11], 5 | 0x80);
    assert_eq!(LegacyPackFromRobot::try_from_bytes(&bytes), Ok(pack));
}

#[test]
fn robot_found_ball_is_not_carried() {
    let mut pack = LegacyPackFromRobot::default();
    pack.found_ball = false;
    let bytes = pack.to_bytes();
    assert_eq!(bytes, LegacyPackFromRobot::default().to_bytes());
    let back = LegacyPackFromRobot::try_from_bytes(&bytes).unwrap();
    assert!(back.found_ball);
}

#[test]
fn robot_ball_flag_is_lost_on_high_codes() {
    for ctrl in [LegacyCtrl::Offline, LegacyCtrl::TechCompFindBall] {
        let mut pack = LegacyPackFromRobot::default();
        pack.ctrl = ctrl;
        pack.has_ball = true;
        let bytes = pack.to_bytes();
        assert_eq!(bytes[11], u8::from(ctrl));
        let back = LegacyPackFromRobot::try_from_bytes(&bytes).unwrap();
        assert_eq!(back.ctrl, ctrl);
        assert!(!back.has_ball);
    }
}

#[test]
fn robot_ball_flag_is_lost_where_the_flagged_byte_is_a_code() {
    let mut pack = LegacyPackFromRobot::default();
    pack.ctrl = LegacyCtrl::GoalKickPrime;
    pack.has_ball = true;
    let back = LegacyPackFromRobot::try_from_bytes(&pack.to_bytes()).unwrap();
    assert_eq!(back.ctrl, LegacyCtrl::TechCompFindBall);
    assert!(!back.has_ball);
    pack.ctrl = LegacyCtrl::UndefinedVal;
    let back = LegacyPackFromRobot::try_from_bytes(&pack.to_bytes()).unwrap();
    assert_eq!(back.ctrl, LegacyCtrl::Offline);
    assert!(!back.has_ball);
}

#[test]
fn robot_ball_flag_survives_on_every_other_directive() {
    for code in 0u8..128 {
        let ctrl = LegacyCtrl::from(code);
        if ctrl == LegacyCtrl::UndefinedVal || ctrl == LegacyCtrl::GoalKickPrime {
            continue;
        }
        let mut pack = LegacyPackFromRobot::default();
        pack.ctrl = ctrl;
        pack.has_ball = true;
        let bytes = pack.to_bytes();
        assert_eq!(bytes[11], code | 0x80);
        assert_eq!(LegacyPackFromRobot::try_from_bytes(&bytes), Ok(pack));
    }
}

#[test]
fn robot_every_bit_flip_is_detected() {
    let good = LegacyPackFromRobot::default().to_bytes();
    for at in 0..good.len() {
        for bit in 0..8 {
            let mut bad = good;
            bad[at] ^= 1 << bit;
            let result = LegacyPackFromRobot::try_from_bytes(&bad);
            if at == 2 && bad[2] as usize > bad.len() {
                assert_eq!(result, Err(DecodeError::LengthMismatch));
            } else {
                let expected = bad[175];
                let computed = wrapping_sum(&bad[..175]);
                assert_eq!(result, Err(DecodeError::ChecksumMismatch { computed, expected }));
            }
        }
    }
}

#[test]
fn coach_every_bit_flip_is_detected() {
    for ctrl in [LegacyCtrl::MoveTo, LegacyCtrl::Defence, LegacyCtrl::Offline] {
        let mut pack = LegacyPackFromCoach::default();
        pack.ctrl = ctrl;
        let good = pack.to_bytes();
        for at in 0..good.len() {
            for bit in 0..8 {
                let mut bad = good;
                bad[at] ^= 1 << bit;
                let result = LegacyPackFromCoach::try_from_bytes(&bad);
                if at == 2 && bad[2] as usize > bad.len() {
                    assert_eq!(result, Err(DecodeError::LengthMismatch));
                } else {
                    let expected = bad[204];
                    let computed = wrapping_sum(&bad[..204]);
                    assert_eq!(result, Err(DecodeError::ChecksumMismatch { computed, expected }));
                }
            }
        }
    }
}

#[test]
fn checksum_mismatch_reports_both_sums() {
    let mut bytes = LegacyPackFromRobot::default().to_bytes();
    bytes[175] = 0;
    assert_eq!(
        LegacyPackFromRobot::try_from_bytes(&bytes),
        Err(DecodeError::ChecksumMismatch { computed: 138, expected: 0 })
    );
}

#[test]
fn robot_shorter_than_declared_is_length_mismatch() {
    let good = LegacyPackFromRobot::default().to_bytes();
    for len in 3..176 {
        assert_eq!(
            LegacyPackFromRobot::try_from_bytes(&good[..len]),
            Err(DecodeError::LengthMismatch)
        );
    }
}

#[test]
fn coach_shorter_than_declared_is_length_mismatch() {
    let good = LegacyPackFromCoach::default().to_bytes();
    for len in 3..205 {
        assert_eq!(
            LegacyPackFromCoach::try_from_bytes(&good[..len]),
            Err(DecodeError::LengthMismatch)
        );
    }
}

#[test]
fn no_length_byte_is_a_truncated_field() {
    for len in 0..3 {
        let bytes = [0x55u8, 0xAA, 0][..len].to_vec();
        assert_eq!(
            LegacyPackFromRobot::try_from_bytes(&bytes),
            Err(DecodeError::TruncatedField(PackField::SetLen))
        );
        assert_eq!(
            LegacyPackFromCoach::try_from_bytes(&bytes),
            Err(DecodeError::TruncatedField(PackField::SetLen))
        );
    }
}

fn robot_field_ending_at(len: usize) -> PackField {
    let ends = [
        (4, PackField::Id),
        (5, PackField::MsgType),
        (9, PackField::Pos),
        (11, PackField::Angle),
        (12, PackField::CtrlAndFoundBall),
        (16, PackField::FoundBallPos),
        (18, PackField::Velocity),
        (20, PackField::VelocityAngle),
        (21, PackField::PassKick),
        (25, PackField::PassTargetPos),
    ];
    for (end, field) in ends {
        if len < end {
            return field;
        }
    }
    if len < 75 {
        return if (len - 25) % 5 == 0 { PackField::BarrierSize } else { PackField::BarrierPos };
    }
    let ends = [
        (76, PackField::ComputerAc),
        (77, PackField::ComputerBatteryFlag),
        (78, PackField::ComputerBatteryPercent),
        (80, PackField::ComputerWorkingSecondCount),
        (81, PackField::ComputerCpuPercent),
        (85, PackField::ComputerCpuFrequency),
        (89, PackField::SoftVersion),
        (90, PackField::RobotPowerVolt),
        (91, PackField::RobotCharge),
        (92, PackField::VideoFps),
        (93, PackField::MulticastFps),
    ];
    for (end, field) in ends {
        if len < end {
            return field;
        }
    }
    unreachable!()
}

#[test]
fn robot_cut_mid_field_names_the_field() {
    let mut good = LegacyPackFromRobot::default().to_bytes();
    good[2] = 0;
    for len in 3..93 {
        assert_eq!(
            LegacyPackFromRobot::try_from_bytes(&good[..len]),
            Err(DecodeError::TruncatedField(robot_field_ending_at(len)))
        );
    }
    assert_eq!(
        LegacyPackFromRobot::try_from_bytes(&good[..8]),
        Err(DecodeError::TruncatedField(PackField::Pos))
    );
    assert_eq!(
        LegacyPackFromRobot::try_from_bytes(&good[..25]),
        Err(DecodeError::TruncatedField(PackField::BarrierSize))
    );
    assert_eq!(
        LegacyPackFromRobot::try_from_bytes(&good[..74]),
        Err(DecodeError::TruncatedField(PackField::BarrierPos))
    );
}

#[test]
fn coach_cut_mid_field_names_the_field() {
    let mut pack = LegacyPackFromCoach::default();
    pack.ctrl = LegacyCtrl::MoveTo;
    let mut good = pack.to_bytes();
    good[2] = 0;
    let cases = [
        (3, PackField::Id),
        (4, PackField::MsgType),
        (5, PackField::PlayerCtrlByte),
        (6, PackField::PlayerPos),
        (9, PackField::PlayerPos),
        (10, PackField::PlayerAngle),
        (11, PackField::PlayerAngle),
        (12, PackField::PlayerCtrlByte),
        (39, PackField::PlayerAngle),
        (40, PackField::BarrierSize),
        (41, PackField::BarrierPos),
        (89, PackField::BarrierPos),
        (90, PackField::SetupPos),
        (94, PackField::FoundBall),
        (95, PackField::BallPosFromCoach),
        (99, PackField::Ctrl),
        (100, PackField::TargetPos),
        (103, PackField::TargetPos),
        (104, PackField::TargetAngle),
        (105, PackField::TargetAngle),
        (106, PackField::Speed),
    ];
    for (len, field) in cases {
        assert_eq!(
            LegacyPackFromCoach::try_from_bytes(&good[..len]),
            Err(DecodeError::TruncatedField(field))
        );
    }
    good[99] = u8::from(LegacyCtrl::Defence);
    assert_eq!(
        LegacyPackFromCoach::try_from_bytes(&good[..101]),
        Err(DecodeError::TruncatedField(PackField::DefDist))
    );
    assert_eq!(
        LegacyPackFromCoach::try_from_bytes(&good[..103]),
        Err(DecodeError::TruncatedField(PackField::DefAngle))
    );
    good[99] = u8::from(LegacyCtrl::Pass);
    assert_eq!(
        LegacyPackFromCoach::try_from_bytes(&good[..103]),
        Err(DecodeError::TruncatedField(PackField::PassTargetPos))
    );
    good[99] = u8::from(LegacyCtrl::Catch);
    assert_eq!(
        LegacyPackFromCoach::try_from_bytes(&good[..103]),
        Err(DecodeError::TruncatedField(PackField::CatchFromPos))
    );
}

#[test]
fn short_buffers_decode_when_their_last_byte_is_their_sum() {
    let mut robot = LegacyPackFromRobot::default().to_bytes()[..93].to_vec();
    robot[2] = 93;
    robot[92] = 0;
    seal(&mut robot);
    let back = LegacyPackFromRobot::try_from_bytes(&robot).unwrap();
    assert_eq!(back.multicast_fps, robot[92]);
    assert_eq!(back.video_fps, 114);

    let mut coach = LegacyPackFromCoach::default().to_bytes()[..101].to_vec();
    coach[2] = 101;
    seal(&mut coach);
    let back = LegacyPackFromCoach::try_from_bytes(&coach).unwrap();
    assert_eq!(back.ctrl, LegacyCtrl::Offline);
}

#[test]
fn header_is_not_checked_on_packets() {
    let mut bytes = LegacyPackFromRobot::default().to_bytes();
    bytes[0] = 0x12;
    bytes[1] = 0x34;
    seal(&mut bytes);
    assert_eq!(LegacyPackFromRobot::try_from_bytes(&bytes), Ok(LegacyPackFromRobot::default()));
    let mut bytes = LegacyPackFromCoach::default().to_bytes();
    bytes[0] = 0;
    bytes[1] = 0;
    seal(&mut bytes);
    assert_eq!(LegacyPackFromCoach::try_from_bytes(&bytes), Ok(LegacyPackFromCoach::default()));
}

#[test]
fn unknown_codes_decode_to_the_sentinel() {
    let mut bytes = LegacyPackFromRobot::default().to_bytes();
    bytes[4] = 99;
    bytes[11] = 10;
    seal(&mut bytes);
    let back = LegacyPackFromRobot::try_from_bytes(&bytes).unwrap();
    assert_eq!(back.msg_type, LegacyMsgType::UndefinedVal);
    assert_eq!(back.ctrl, LegacyCtrl::UndefinedVal);
    assert!(!back.has_ball);

    bytes[11] = 10 | 0x80;
    seal(&mut bytes);
    let back = LegacyPackFromRobot::try_from_bytes(&bytes).unwrap();
    assert_eq!(back.ctrl, LegacyCtrl::UndefinedVal);
    assert!(back.has_ball);

    let mut bytes = LegacyPackFromCoach::default().to_bytes();
    bytes[4] = 0;
    bytes[5] = 113;
    bytes[99] = 10;
    seal(&mut bytes);
    let back = LegacyPackFromCoach::try_from_bytes(&bytes).unwrap();
    assert_eq!(back.msg_type, LegacyMsgType::UndefinedVal);
    assert_eq!(back.players[0].ctrl, LegacyCtrl::UndefinedVal);
    assert_eq!(back.ctrl, LegacyCtrl::UndefinedVal);
    assert_eq!(back.target_pos, LegacyPackFromCoach::default().target_pos);
}

#[test]
fn every_byte_is_accepted_as_a_code() {
    for code in 0u8..=255 {
        let mut bytes = LegacyPackFromRobot::default().to_bytes();
        bytes[4] = code;
        bytes[11] = code;
        seal(&mut bytes);
        let back = LegacyPackFromRobot::try_from_bytes(&bytes).unwrap();
        assert_eq!(back.msg_type, LegacyMsgType::from(code));
        let mut bytes = LegacyPackFromCoach::default().to_bytes();
        bytes[99] = code;
        seal(&mut bytes);
        let back = LegacyPackFromCoach::try_from_bytes(&bytes).unwrap();
        assert_eq!(back.ctrl, LegacyCtrl::from(code));
    }
}

#[test]
fn flags_are_true_on_any_nonzero_byte() {
    let mut bytes = LegacyPackFromRobot::default().to_bytes();
    bytes[20] = 0x40;
    bytes[90] = 0xFF;
    seal(&mut bytes);
    let back = LegacyPackFromRobot::try_from_bytes(&bytes).unwrap();
    assert!(back.pass_kick);
    assert!(back.robot_charge);
    bytes[20] = 0;
    seal(&mut bytes);
    let back = LegacyPackFromRobot::try_from_bytes(&bytes).unwrap();
    assert!(!back.pass_kick);
}

#[test]
fn field_names() {
    assert_eq!(PackField::SetLen.name(), "set_len");
    assert_eq!(PackField::CtrlAndFoundBall.name(), "ctrl & found_ball");
    assert_eq!(PackField::BarrierSize.name(), "barrier.size");
    assert_eq!(PackField::PlayerCtrlByte.name(), "player.ctrl_byte");
    assert_eq!(PackField::ComputerCpuFrequency.name(), "computer_cpu_frequency");
    assert_eq!(PackField::CatchFromPos.name(), "catch_from_pos");
}

#[test]
fn packets_convert_to_and_from_arrays() {
    let robot = LegacyPackFromRobot::default();
    let bytes: [u8; 176] = robot.into();
    assert_eq!(bytes, robot.to_bytes());
    assert_eq!(LegacyPackFromRobot::try_from(bytes), Ok(robot));
    let coach = LegacyPackFromCoach::default();
    let mut bytes: [u8; 205] = coach.into();
    assert_eq!(bytes, coach.to_bytes());
    assert_eq!(LegacyPackFromCoach::try_from(bytes), Ok(coach));
    bytes[204] ^= 0x10;
    assert_eq!(
        LegacyPackFromCoach::try_from(bytes),
        Err(DecodeError::ChecksumMismatch { computed: 12, expected: 12 ^ 0x10 })
    );
}
