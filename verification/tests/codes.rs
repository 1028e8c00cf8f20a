use bigherox_robocup::data_legacy::{LegacyCtrl, LegacyMsgType, Match};

#[test]
fn msg_type_codes() {
    assert_eq!(u8::from(LegacyMsgType::Info), 1);
    assert_eq!(u8::from(LegacyMsgType::Cmd), 2);
    assert_eq!(u8::from(LegacyMsgType::Obst), 3);
    assert_eq!(u8::from(LegacyMsgType::Teammate), 4);
    assert_eq!(u8::from(LegacyMsgType::Kick), 5);
    assert_eq!(u8::from(LegacyMsgType::InitPos), 6);
    assert_eq!(u8::from(LegacyMsgType::UndefinedVal), 254);
    assert_eq!(LegacyMsgType::from(0), LegacyMsgType::UndefinedVal);
    assert_eq!(LegacyMsgType::from(7), LegacyMsgType::UndefinedVal);
    assert_eq!(LegacyMsgType::from(255), LegacyMsgType::UndefinedVal);
    assert_eq!(LegacyMsgType::from(4), LegacyMsgType::Teammate);
    assert_eq!(LegacyMsgType::default(), LegacyMsgType::UndefinedVal);
}

#[test]
fn ctrl_codes() {
    let table = [
        (LegacyCtrl::Stop, 0),
        (LegacyCtrl::Attack, 1),
        (LegacyCtrl::Goalkeep, 2),
        (LegacyCtrl::Defence, 3),
        (LegacyCtrl::Pass, 4),
        (LegacyCtrl::Catch, 5),
        (LegacyCtrl::PassMove, 6),
        (LegacyCtrl::CatchMove, 7),
        (LegacyCtrl::CatchFocus, 8),
        (LegacyCtrl::Manual, 9),
        (LegacyCtrl::MoveTo, 11),
        (LegacyCtrl::Block, 12),
        (LegacyCtrl::FocusOnBall, 13),
        (LegacyCtrl::ProDef, 14),
        (LegacyCtrl::SearchBall, 15),
        (LegacyCtrl::ShiftAtk, 16),
        (LegacyCtrl::RemoteCtrl, 17),
        (LegacyCtrl::AroundBall, 18),
        (LegacyCtrl::AtkCover, 19),
        (LegacyCtrl::BackPos, 20),
        (LegacyCtrl::LSAtk, 21),
        (LegacyCtrl::LSAtkCover, 22),
        (LegacyCtrl::ZoneDef, 30),
        (LegacyCtrl::Follow, 31),
        (LegacyCtrl::DefBall, 32),
        (LegacyCtrl::DefGoal, 33),
        (LegacyCtrl::Test, 40),
        (LegacyCtrl::Idle, 41),
        (LegacyCtrl::KickOffPrimeReady, 50),
        (LegacyCtrl::KickOffSlaveReady, 51),
        (LegacyCtrl::KickOffPrime, 52),
        (LegacyCtrl::KickOffSlave, 53),
        (LegacyCtrl::FreeKickPrimeReady, 60),
        (LegacyCtrl::FreeKickSlaveReady, 61),
        (LegacyCtrl::FreeKickPrime, 62),
        (LegacyCtrl::FreeKickSlave, 63),
        (LegacyCtrl::GoalKickPrimeReady, 70),
        (LegacyCtrl::GoalKickSlaveReady, 71),
        (LegacyCtrl::GoalKickPrime, 72),
        (LegacyCtrl::GoalKickSlave, 73),
        (LegacyCtrl::ThrowInPrimeReady, 80),
        (LegacyCtrl::ThrowInSlaveReady, 81),
        (LegacyCtrl::ThrowInPrime, 82),
        (LegacyCtrl::ThrowInSlave, 83),
        (LegacyCtrl::CornerKickPrimeReady, 90),
        (LegacyCtrl::CornerKickSlaveReady, 91),
        (LegacyCtrl::CornerKickPrime, 92),
        (LegacyCtrl::CornerKickSlave, 93),
        (LegacyCtrl::AntiKickOff, 95),
        (LegacyCtrl::PenaltyReady, 100),
        (LegacyCtrl::Penalty, 101),
        (LegacyCtrl::RobstNew, 110),
        (LegacyCtrl::RobstErr, 111),
        (LegacyCtrl::RobstProbe, 112),
        (LegacyCtrl::UndefinedVal, 127),
        (LegacyCtrl::TechCompFindBall, 200),
        (LegacyCtrl::Offline, 255),
    ];
    for (ctrl, code) in table {
        assert_eq!(u8::from(ctrl), code);
        assert_eq!(ctrl.to_u8(), code);
        assert_eq!(LegacyCtrl::from(code), ctrl);
        assert_eq!(LegacyCtrl::from_u8(code), ctrl);
    }
    for code in 0u8..=255 {
        if !table.iter().any(|(_, c)| *c == code) {
            assert_eq!(LegacyCtrl::from(code), LegacyCtrl::UndefinedVal);
        }
    }
    assert_eq!(LegacyCtrl::default(), LegacyCtrl::UndefinedVal);
}

#[test]
fn match_codes() {
    let table = [
        (Match::Off, 0),
        (Match::Stop, 1),
        (Match::Playing, 2),
        (Match::ParkIn, 3),
        (Match::ParkOut, 4),
        (Match::Start, 5),
        (Match::DroppedballReady, 9),
        (Match::DroppedballStart, 10),
        (Match::KickOffReady, 11),
        (Match::KickOffStart, 12),
        (Match::FreeKickReady, 13),
        (Match::FreeKickStart, 14),
        (Match::GoalKickReady, 15),
        (Match::GoalKickStart, 16),
        (Match::ThrowInReady, 17),
        (Match::ThrowInStart, 18),
        (Match::CornerKickReady, 19),
        (Match::CornerKickStart, 20),
        (Match::PenaltyReady, 21),
        (Match::PenaltyStart, 22),
        (Match::CounterKickoffReady, 31),
        (Match::CounterKickoffStart, 32),
        (Match::CounterFreeKickReady, 33),
        (Match::CounterFreeKickStart, 34),
        (Match::CounterGoalKickReady, 35),
        (Match::CounterGoalKickStart, 36),
        (Match::CounterThrowInReady, 37),
        (Match::CounterThrowInStart, 38),
        (Match::CounterCornerKickReady, 39),
        (Match::CounterCornerKickStart, 40),
        (Match::CounterPenaltyReady, 41),
        (Match::CounterPenaltyStart, 42),
        (Match::TechChallange, 90),
        (Match::TestPassing, 100),
        (Match::Test4pass, 101),
        (Match::TestAllDef, 102),
        (Match::TestMoveAround, 103),
        (Match::TestCatchMove, 104),
        (Match::UndefinedVal, 254),
    ];
    for (state, code) in table {
        assert_eq!(u8::from(state), code);
        assert_eq!(Match::from(code), state);
    }
    for code in 0u8..=255 {
        if !table.iter().any(|(_, c)| *c == code) {
            assert_eq!(Match::from(code), Match::UndefinedVal);
        }
    }
    assert_eq!(Match::default(), Match::UndefinedVal);
}

#[test]
fn codes_order_as_their_numbers() {
    assert!(LegacyCtrl::Stop < LegacyCtrl::Attack);
    assert!(LegacyCtrl::RobstProbe < LegacyCtrl::UndefinedVal);
    assert!(LegacyCtrl::UndefinedVal < LegacyCtrl::TechCompFindBall);
    assert!(LegacyCtrl::TechCompFindBall < LegacyCtrl::Offline);
    assert!(LegacyMsgType::InitPos < LegacyMsgType::UndefinedVal);
    assert!(Match::TestCatchMove < Match::UndefinedVal);
    for a in 0u8..=255 {
        for b in 0u8..=255 {
            let (x, y) = (LegacyCtrl::from(a), LegacyCtrl::from(b));
            assert_eq!(x.cmp(&y), u8::from(x).cmp(&u8::from(y)));
        }
    }
}
