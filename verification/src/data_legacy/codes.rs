//! The closed code tables of the wire format. Each table has a sentinel,
//! `UndefinedVal`, that stands for every byte outside the table, so that a
//! packet with a code this side does not know still decodes.
//!
//! Variants are declared in ascending order of their codes: the derived order
//! of two values is the order of their codes.

use vstd::prelude::*;
use vstd::std_specs::convert::FromSpecImpl;

verus! {

/// What a packet is about.
#[derive(Clone, Copy, Debug, PartialEq, Eq, PartialOrd, Ord, Hash, Structural)]
pub enum LegacyMsgType {
    Info,
    Cmd,
    Obst,
    Teammate,
    Kick,
    InitPos,
    /// Stands for every byte that is no message type.
    UndefinedVal,
}

impl LegacyMsgType {
    /// The byte that stands for this message type on the wire.
    pub open spec fn code(self) -> u8 {
        match self {
            LegacyMsgType::Info => 1,
            LegacyMsgType::Cmd => 2,
            LegacyMsgType::Obst => 3,
            LegacyMsgType::Teammate => 4,
            LegacyMsgType::Kick => 5,
            LegacyMsgType::InitPos => 6,
            LegacyMsgType::UndefinedVal => 254,
        }
    }

    /// The message type that `b` stands for: the one whose code is `b`, or
    /// `UndefinedVal` when there is none.
    pub open spec fn of_code(b: u8) -> Self {
        match b {
            1 => LegacyMsgType::Info,
            2 => LegacyMsgType::Cmd,
            3 => LegacyMsgType::Obst,
            4 => LegacyMsgType::Teammate,
            5 => LegacyMsgType::Kick,
            6 => LegacyMsgType::InitPos,
            _ => LegacyMsgType::UndefinedVal,
        }
    }

    /// Whether `b` is the code of some message type, the sentinel's own code
    /// included.
    pub open spec fn is_code(b: u8) -> bool {
        Self::of_code(b).code() == b
    }

    pub fn to_u8(self) -> (b: u8)
        ensures
            b == self.code(),
    {
        match self {
            LegacyMsgType::Info => 1,
            LegacyMsgType::Cmd => 2,
            LegacyMsgType::Obst => 3,
            LegacyMsgType::Teammate => 4,
            LegacyMsgType::Kick => 5,
            LegacyMsgType::InitPos => 6,
            LegacyMsgType::UndefinedVal => 254,
        }
    }

    pub fn from_u8(b: u8) -> (v: Self)
        ensures
            v == Self::of_code(b),
    {
        match b {
            1 => LegacyMsgType::Info,
            2 => LegacyMsgType::Cmd,
            3 => LegacyMsgType::Obst,
            4 => LegacyMsgType::Teammate,
            5 => LegacyMsgType::Kick,
            6 => LegacyMsgType::InitPos,
            _ => LegacyMsgType::UndefinedVal,
        }
    }

    /// Every message type is found again from its own code.
    pub proof fn lemma_code_round_trip(self)
        ensures
            Self::of_code(self.code()) == self,
    {
    }

    /// A byte resolves to a message type with that very code, or to the sentinel.
    pub proof fn lemma_unknown_is_sentinel(b: u8)
        ensures
            Self::of_code(b).code() == b || Self::of_code(b) == LegacyMsgType::UndefinedVal,
    {
    }
}

impl Default for LegacyMsgType {
    fn default() -> (v: Self)
        ensures
            v == LegacyMsgType::UndefinedVal,
    {
        LegacyMsgType::UndefinedVal
    }
}

impl From<u8> for LegacyMsgType {
    fn from(b: u8) -> (v: Self) {
        LegacyMsgType::from_u8(b)
    }
}

impl FromSpecImpl<u8> for LegacyMsgType {
    open spec fn obeys_from_spec() -> bool {
        true
    }

    open spec fn from_spec(b: u8) -> Self {
        LegacyMsgType::of_code(b)
    }
}

impl From<LegacyMsgType> for u8 {
    fn from(v: LegacyMsgType) -> (b: u8) {
        v.to_u8()
    }
}

impl FromSpecImpl<LegacyMsgType> for u8 {
    open spec fn obeys_from_spec() -> bool {
        true
    }

    open spec fn from_spec(v: LegacyMsgType) -> u8 {
        v.code()
    }
}
/// The directive a robot is given, or reports to be following.
#[derive(Clone, Copy, Debug, PartialEq, Eq, PartialOrd, Ord, Hash, Structural)]
pub enum LegacyCtrl {
    Stop,
    Attack,
    Goalkeep,
    Defence,
    Pass,
    /// Pass: receive the ball.
    Catch,
    PassMove,
    CatchMove,
    CatchFocus,
    /// Driven by hand.
    Manual,
    MoveTo,
    Block,
    FocusOnBall,
    ProDef,
    SearchBall,
    ShiftAtk,
    RemoteCtrl,
    AroundBall,
    AtkCover,
    BackPos,
    LSAtk,
    LSAtkCover,
    ZoneDef,
    Follow,
    DefBall,
    DefGoal,
    Test,
    Idle,
    KickOffPrimeReady,
    KickOffSlaveReady,
    KickOffPrime,
    KickOffSlave,
    FreeKickPrimeReady,
    FreeKickSlaveReady,
    FreeKickPrime,
    FreeKickSlave,
    GoalKickPrimeReady,
    GoalKickSlaveReady,
    GoalKickPrime,
    GoalKickSlave,
    ThrowInPrimeReady,
    ThrowInSlaveReady,
    ThrowInPrime,
    ThrowInSlave,
    CornerKickPrimeReady,
    CornerKickSlaveReady,
    CornerKickPrime,
    CornerKickSlave,
    AntiKickOff,
    PenaltyReady,
    Penalty,
    RobstNew,
    RobstErr,
    RobstProbe,
    /// Stands for every byte that is no directive.
    UndefinedVal,
    /// Technical challenge: find the ball.
    TechCompFindBall,
    /// The robot is not on line.
    Offline,
}

impl LegacyCtrl {
    /// The byte that stands for this directive on the wire.
    pub open spec fn code(self) -> u8 {
        match self {
            LegacyCtrl::Stop => 0,
            LegacyCtrl::Attack => 1,
            LegacyCtrl::Goalkeep => 2,
            LegacyCtrl::Defence => 3,
            LegacyCtrl::Pass => 4,
            LegacyCtrl::Catch => 5,
            LegacyCtrl::PassMove => 6,
            LegacyCtrl::CatchMove => 7,
            LegacyCtrl::CatchFocus => 8,
            LegacyCtrl::Manual => 9,
            LegacyCtrl::MoveTo => 11,
            LegacyCtrl::Block => 12,
            LegacyCtrl::FocusOnBall => 13,
            LegacyCtrl::ProDef => 14,
            LegacyCtrl::SearchBall => 15,
            LegacyCtrl::ShiftAtk => 16,
            LegacyCtrl::RemoteCtrl => 17,
            LegacyCtrl::AroundBall => 18,
            LegacyCtrl::AtkCover => 19,
            LegacyCtrl::BackPos => 20,
            LegacyCtrl::LSAtk => 21,
            LegacyCtrl::LSAtkCover => 22,
            LegacyCtrl::ZoneDef => 30,
            LegacyCtrl::Follow => 31,
            LegacyCtrl::DefBall => 32,
            LegacyCtrl::DefGoal => 33,
            LegacyCtrl::Test => 40,
            LegacyCtrl::Idle => 41,
            LegacyCtrl::KickOffPrimeReady => 50,
            LegacyCtrl::KickOffSlaveReady => 51,
            LegacyCtrl::KickOffPrime => 52,
            LegacyCtrl::KickOffSlave => 53,
            LegacyCtrl::FreeKickPrimeReady => 60,
            LegacyCtrl::FreeKickSlaveReady => 61,
            LegacyCtrl::FreeKickPrime => 62,
            LegacyCtrl::FreeKickSlave => 63,
            LegacyCtrl::GoalKickPrimeReady => 70,
            LegacyCtrl::GoalKickSlaveReady => 71,
            LegacyCtrl::GoalKickPrime => 72,
            LegacyCtrl::GoalKickSlave => 73,
            LegacyCtrl::ThrowInPrimeReady => 80,
            LegacyCtrl::ThrowInSlaveReady => 81,
            LegacyCtrl::ThrowInPrime => 82,
            LegacyCtrl::ThrowInSlave => 83,
            LegacyCtrl::CornerKickPrimeReady => 90,
            LegacyCtrl::CornerKickSlaveReady => 91,
            LegacyCtrl::CornerKickPrime => 92,
            LegacyCtrl::CornerKickSlave => 93,
            LegacyCtrl::AntiKickOff => 95,
            LegacyCtrl::PenaltyReady => 100,
            LegacyCtrl::Penalty => 101,
            LegacyCtrl::RobstNew => 110,
            LegacyCtrl::RobstErr => 111,
            LegacyCtrl::RobstProbe => 112,
            LegacyCtrl::UndefinedVal => 127,
            LegacyCtrl::TechCompFindBall => 200,
            LegacyCtrl::Offline => 255,
        }
    }

    /// The directive that `b` stands for: the one whose code is `b`, or
    /// `UndefinedVal` when there is none.
    pub open spec fn of_code(b: u8) -> Self {
        match b {
            0 => LegacyCtrl::Stop,
            1 => LegacyCtrl::Attack,
            2 => LegacyCtrl::Goalkeep,
            3 => LegacyCtrl::Defence,
            4 => LegacyCtrl::Pass,
            5 => LegacyCtrl::Catch,
            6 => LegacyCtrl::PassMove,
            7 => LegacyCtrl::CatchMove,
            8 => LegacyCtrl::CatchFocus,
            9 => LegacyCtrl::Manual,
            11 => LegacyCtrl::MoveTo,
            12 => LegacyCtrl::Block,
            13 => LegacyCtrl::FocusOnBall,
            14 => LegacyCtrl::ProDef,
            15 => LegacyCtrl::SearchBall,
            16 => LegacyCtrl::ShiftAtk,
            17 => LegacyCtrl::RemoteCtrl,
            18 => LegacyCtrl::AroundBall,
            19 => LegacyCtrl::AtkCover,
            20 => LegacyCtrl::BackPos,
            21 => LegacyCtrl::LSAtk,
            22 => LegacyCtrl::LSAtkCover,
            30 => LegacyCtrl::ZoneDef,
            31 => LegacyCtrl::Follow,
            32 => LegacyCtrl::DefBall,
            33 => LegacyCtrl::DefGoal,
            40 => LegacyCtrl::Test,
            41 => LegacyCtrl::Idle,
            50 => LegacyCtrl::KickOffPrimeReady,
            51 => LegacyCtrl::KickOffSlaveReady,
            52 => LegacyCtrl::KickOffPrime,
            53 => LegacyCtrl::KickOffSlave,
            60 => LegacyCtrl::FreeKickPrimeReady,
            61 => LegacyCtrl::FreeKickSlaveReady,
            62 => LegacyCtrl::FreeKickPrime,
            63 => LegacyCtrl::FreeKickSlave,
            70 => LegacyCtrl::GoalKickPrimeReady,
            71 => LegacyCtrl::GoalKickSlaveReady,
            72 => LegacyCtrl::GoalKickPrime,
            73 => LegacyCtrl::GoalKickSlave,
            80 => LegacyCtrl::ThrowInPrimeReady,
            81 => LegacyCtrl::ThrowInSlaveReady,
            82 => LegacyCtrl::ThrowInPrime,
            83 => LegacyCtrl::ThrowInSlave,
            90 => LegacyCtrl::CornerKickPrimeReady,
            91 => LegacyCtrl::CornerKickSlaveReady,
            92 => LegacyCtrl::CornerKickPrime,
            93 => LegacyCtrl::CornerKickSlave,
            95 => LegacyCtrl::AntiKickOff,
            100 => LegacyCtrl::PenaltyReady,
            101 => LegacyCtrl::Penalty,
            110 => LegacyCtrl::RobstNew,
            111 => LegacyCtrl::RobstErr,
            112 => LegacyCtrl::RobstProbe,
            200 => LegacyCtrl::TechCompFindBall,
            255 => LegacyCtrl::Offline,
            _ => LegacyCtrl::UndefinedVal,
        }
    }

    /// Whether `b` is the code of some directive, the sentinel's own code
    /// included.
    pub open spec fn is_code(b: u8) -> bool {
        Self::of_code(b).code() == b
    }

    pub fn to_u8(self) -> (b: u8)
        ensures
            b == self.code(),
    {
        match self {
            LegacyCtrl::Stop => 0,
            LegacyCtrl::Attack => 1,
            LegacyCtrl::Goalkeep => 2,
            LegacyCtrl::Defence => 3,
            LegacyCtrl::Pass => 4,
            LegacyCtrl::Catch => 5,
            LegacyCtrl::PassMove => 6,
            LegacyCtrl::CatchMove => 7,
            LegacyCtrl::CatchFocus => 8,
            LegacyCtrl::Manual => 9,
            LegacyCtrl::MoveTo => 11,
            LegacyCtrl::Block => 12,
            LegacyCtrl::FocusOnBall => 13,
            LegacyCtrl::ProDef => 14,
            LegacyCtrl::SearchBall => 15,
            LegacyCtrl::ShiftAtk => 16,
            LegacyCtrl::RemoteCtrl => 17,
            LegacyCtrl::AroundBall => 18,
            LegacyCtrl::AtkCover => 19,
            LegacyCtrl::BackPos => 20,
            LegacyCtrl::LSAtk => 21,
            LegacyCtrl::LSAtkCover => 22,
            LegacyCtrl::ZoneDef => 30,
            LegacyCtrl::Follow => 31,
            LegacyCtrl::DefBall => 32,
            LegacyCtrl::DefGoal => 33,
            LegacyCtrl::Test => 40,
            LegacyCtrl::Idle => 41,
            LegacyCtrl::KickOffPrimeReady => 50,
            LegacyCtrl::KickOffSlaveReady => 51,
            LegacyCtrl::KickOffPrime => 52,
            LegacyCtrl::KickOffSlave => 53,
            LegacyCtrl::FreeKickPrimeReady => 60,
            LegacyCtrl::FreeKickSlaveReady => 61,
            LegacyCtrl::FreeKickPrime => 62,
            LegacyCtrl::FreeKickSlave => 63,
            LegacyCtrl::GoalKickPrimeReady => 70,
            LegacyCtrl::GoalKickSlaveReady => 71,
            LegacyCtrl::GoalKickPrime => 72,
            LegacyCtrl::GoalKickSlave => 73,
            LegacyCtrl::ThrowInPrimeReady => 80,
            LegacyCtrl::ThrowInSlaveReady => 81,
            LegacyCtrl::ThrowInPrime => 82,
            LegacyCtrl::ThrowInSlave => 83,
            LegacyCtrl::CornerKickPrimeReady => 90,
            LegacyCtrl::CornerKickSlaveReady => 91,
            LegacyCtrl::CornerKickPrime => 92,
            LegacyCtrl::CornerKickSlave => 93,
            LegacyCtrl::AntiKickOff => 95,
            LegacyCtrl::PenaltyReady => 100,
            LegacyCtrl::Penalty => 101,
            LegacyCtrl::RobstNew => 110,
            LegacyCtrl::RobstErr => 111,
            LegacyCtrl::RobstProbe => 112,
            LegacyCtrl::UndefinedVal => 127,
            LegacyCtrl::TechCompFindBall => 200,
            LegacyCtrl::Offline => 255,
        }
    }

    pub fn from_u8(b: u8) -> (v: Self)
        ensures
            v == Self::of_code(b),
    {
        match b {
            0 => LegacyCtrl::Stop,
            1 => LegacyCtrl::Attack,
            2 => LegacyCtrl::Goalkeep,
            3 => LegacyCtrl::Defence,
            4 => LegacyCtrl::Pass,
            5 => LegacyCtrl::Catch,
            6 => LegacyCtrl::PassMove,
            7 => LegacyCtrl::CatchMove,
            8 => LegacyCtrl::CatchFocus,
            9 => LegacyCtrl::Manual,
            11 => LegacyCtrl::MoveTo,
            12 => LegacyCtrl::Block,
            13 => LegacyCtrl::FocusOnBall,
            14 => LegacyCtrl::ProDef,
            15 => LegacyCtrl::SearchBall,
            16 => LegacyCtrl::ShiftAtk,
            17 => LegacyCtrl::RemoteCtrl,
            18 => LegacyCtrl::AroundBall,
            19 => LegacyCtrl::AtkCover,
            20 => LegacyCtrl::BackPos,
            21 => LegacyCtrl::LSAtk,
            22 => LegacyCtrl::LSAtkCover,
            30 => LegacyCtrl::ZoneDef,
            31 => LegacyCtrl::Follow,
            32 => LegacyCtrl::DefBall,
            33 => LegacyCtrl::DefGoal,
            40 => LegacyCtrl::Test,
            41 => LegacyCtrl::Idle,
            50 => LegacyCtrl::KickOffPrimeReady,
            51 => LegacyCtrl::KickOffSlaveReady,
            52 => LegacyCtrl::KickOffPrime,
            53 => LegacyCtrl::KickOffSlave,
            60 => LegacyCtrl::FreeKickPrimeReady,
            61 => LegacyCtrl::FreeKickSlaveReady,
            62 => LegacyCtrl::FreeKickPrime,
            63 => LegacyCtrl::FreeKickSlave,
            70 => LegacyCtrl::GoalKickPrimeReady,
            71 => LegacyCtrl::GoalKickSlaveReady,
            72 => LegacyCtrl::GoalKickPrime,
            73 => LegacyCtrl::GoalKickSlave,
            80 => LegacyCtrl::ThrowInPrimeReady,
            81 => LegacyCtrl::ThrowInSlaveReady,
            82 => LegacyCtrl::ThrowInPrime,
            83 => LegacyCtrl::ThrowInSlave,
            90 => LegacyCtrl::CornerKickPrimeReady,
            91 => LegacyCtrl::CornerKickSlaveReady,
            92 => LegacyCtrl::CornerKickPrime,
            93 => LegacyCtrl::CornerKickSlave,
            95 => LegacyCtrl::AntiKickOff,
            100 => LegacyCtrl::PenaltyReady,
            101 => LegacyCtrl::Penalty,
            110 => LegacyCtrl::RobstNew,
            111 => LegacyCtrl::RobstErr,
            112 => LegacyCtrl::RobstProbe,
            200 => LegacyCtrl::TechCompFindBall,
            255 => LegacyCtrl::Offline,
            _ => LegacyCtrl::UndefinedVal,
        }
    }

    /// Every directive is found again from its own code.
    pub proof fn lemma_code_round_trip(self)
        ensures
            Self::of_code(self.code()) == self,
    {
    }

    /// A byte resolves to a directive with that very code, or to the sentinel.
    pub proof fn lemma_unknown_is_sentinel(b: u8)
        ensures
            Self::of_code(b).code() == b || Self::of_code(b) == LegacyCtrl::UndefinedVal,
    {
    }
}

impl Default for LegacyCtrl {
    fn default() -> (v: Self)
        ensures
            v == LegacyCtrl::UndefinedVal,
    {
        LegacyCtrl::UndefinedVal
    }
}

impl From<u8> for LegacyCtrl {
    fn from(b: u8) -> (v: Self) {
        LegacyCtrl::from_u8(b)
    }
}

impl FromSpecImpl<u8> for LegacyCtrl {
    open spec fn obeys_from_spec() -> bool {
        true
    }

    open spec fn from_spec(b: u8) -> Self {
        LegacyCtrl::of_code(b)
    }
}

impl From<LegacyCtrl> for u8 {
    fn from(v: LegacyCtrl) -> (b: u8) {
        v.to_u8()
    }
}

impl FromSpecImpl<LegacyCtrl> for u8 {
    open spec fn obeys_from_spec() -> bool {
        true
    }

    open spec fn from_spec(v: LegacyCtrl) -> u8 {
        v.code()
    }
}
/// The state of the match, as the referee box announces it.
#[derive(Clone, Copy, Debug, PartialEq, Eq, PartialOrd, Ord, Hash, Structural)]
pub enum Match {
    Off,
    Stop,
    Playing,
    ParkIn,
    ParkOut,
    Start,
    DroppedballReady,
    DroppedballStart,
    KickOffReady,
    KickOffStart,
    FreeKickReady,
    FreeKickStart,
    GoalKickReady,
    GoalKickStart,
    ThrowInReady,
    ThrowInStart,
    CornerKickReady,
    CornerKickStart,
    PenaltyReady,
    PenaltyStart,
    CounterKickoffReady,
    CounterKickoffStart,
    CounterFreeKickReady,
    CounterFreeKickStart,
    CounterGoalKickReady,
    CounterGoalKickStart,
    CounterThrowInReady,
    CounterThrowInStart,
    CounterCornerKickReady,
    CounterCornerKickStart,
    CounterPenaltyReady,
    CounterPenaltyStart,
    /// Technical challenge.
    TechChallange,
    TestPassing,
    Test4pass,
    TestAllDef,
    TestMoveAround,
    TestCatchMove,
    /// Stands for every byte that is no match state.
    UndefinedVal,
}

impl Match {
    /// The byte that stands for this match state on the wire.
    pub open spec fn code(self) -> u8 {
        match self {
            Match::Off => 0,
            Match::Stop => 1,
            Match::Playing => 2,
            Match::ParkIn => 3,
            Match::ParkOut => 4,
            Match::Start => 5,
            Match::DroppedballReady => 9,
            Match::DroppedballStart => 10,
            Match::KickOffReady => 11,
            Match::KickOffStart => 12,
            Match::FreeKickReady => 13,
            Match::FreeKickStart => 14,
            Match::GoalKickReady => 15,
            Match::GoalKickStart => 16,
            Match::ThrowInReady => 17,
            Match::ThrowInStart => 18,
            Match::CornerKickReady => 19,
            Match::CornerKickStart => 20,
            Match::PenaltyReady => 21,
            Match::PenaltyStart => 22,
            Match::CounterKickoffReady => 31,
            Match::CounterKickoffStart => 32,
            Match::CounterFreeKickReady => 33,
            Match::CounterFreeKickStart => 34,
            Match::CounterGoalKickReady => 35,
            Match::CounterGoalKickStart => 36,
            Match::CounterThrowInReady => 37,
            Match::CounterThrowInStart => 38,
            Match::CounterCornerKickReady => 39,
            Match::CounterCornerKickStart => 40,
            Match::CounterPenaltyReady => 41,
            Match::CounterPenaltyStart => 42,
            Match::TechChallange => 90,
            Match::TestPassing => 100,
            Match::Test4pass => 101,
            Match::TestAllDef => 102,
            Match::TestMoveAround => 103,
            Match::TestCatchMove => 104,
            Match::UndefinedVal => 254,
        }
    }

    /// The match state that `b` stands for: the one whose code is `b`, or
    /// `UndefinedVal` when there is none.
    pub open spec fn of_code(b: u8) -> Self {
        match b {
            0 => Match::Off,
            1 => Match::Stop,
            2 => Match::Playing,
            3 => Match::ParkIn,
            4 => Match::ParkOut,
            5 => Match::Start,
            9 => Match::DroppedballReady,
            10 => Match::DroppedballStart,
            11 => Match::KickOffReady,
            12 => Match::KickOffStart,
            13 => Match::FreeKickReady,
            14 => Match::FreeKickStart,
            15 => Match::GoalKickReady,
            16 => Match::GoalKickStart,
            17 => Match::ThrowInReady,
            18 => Match::ThrowInStart,
            19 => Match::CornerKickReady,
            20 => Match::CornerKickStart,
            21 => Match::PenaltyReady,
            22 => Match::PenaltyStart,
            31 => Match::CounterKickoffReady,
            32 => Match::CounterKickoffStart,
            33 => Match::CounterFreeKickReady,
            34 => Match::CounterFreeKickStart,
            35 => Match::CounterGoalKickReady,
            36 => Match::CounterGoalKickStart,
            37 => Match::CounterThrowInReady,
            38 => Match::CounterThrowInStart,
            39 => Match::CounterCornerKickReady,
            40 => Match::CounterCornerKickStart,
            41 => Match::CounterPenaltyReady,
            42 => Match::CounterPenaltyStart,
            90 => Match::TechChallange,
            100 => Match::TestPassing,
            101 => Match::Test4pass,
            102 => Match::TestAllDef,
            103 => Match::TestMoveAround,
            104 => Match::TestCatchMove,
            _ => Match::UndefinedVal,
        }
    }

    /// Whether `b` is the code of some match state, the sentinel's own code
    /// included.
    pub open spec fn is_code(b: u8) -> bool {
        Self::of_code(b).code() == b
    }

    pub fn to_u8(self) -> (b: u8)
        ensures
            b == self.code(),
    {
        match self {
            Match::Off => 0,
            Match::Stop => 1,
            Match::Playing => 2,
            Match::ParkIn => 3,
            Match::ParkOut => 4,
            Match::Start => 5,
            Match::DroppedballReady => 9,
            Match::DroppedballStart => 10,
            Match::KickOffReady => 11,
            Match::KickOffStart => 12,
            Match::FreeKickReady => 13,
            Match::FreeKickStart => 14,
            Match::GoalKickReady => 15,
            Match::GoalKickStart => 16,
            Match::ThrowInReady => 17,
            Match::ThrowInStart => 18,
            Match::CornerKickReady => 19,
            Match::CornerKickStart => 20,
            Match::PenaltyReady => 21,
            Match::PenaltyStart => 22,
            Match::CounterKickoffReady => 31,
            Match::CounterKickoffStart => 32,
            Match::CounterFreeKickReady => 33,
            Match::CounterFreeKickStart => 34,
            Match::CounterGoalKickReady => 35,
            Match::CounterGoalKickStart => 36,
            Match::CounterThrowInReady => 37,
            Match::CounterThrowInStart => 38,
            Match::CounterCornerKickReady => 39,
            Match::CounterCornerKickStart => 40,
            Match::CounterPenaltyReady => 41,
            Match::CounterPenaltyStart => 42,
            Match::TechChallange => 90,
            Match::TestPassing => 100,
            Match::Test4pass => 101,
            Match::TestAllDef => 102,
            Match::TestMoveAround => 103,
            Match::TestCatchMove => 104,
            Match::UndefinedVal => 254,
        }
    }

    pub fn from_u8(b: u8) -> (v: Self)
        ensures
            v == Self::of_code(b),
    {
        match b {
            0 => Match::Off,
            1 => Match::Stop,
            2 => Match::Playing,
            3 => Match::ParkIn,
            4 => Match::ParkOut,
            5 => Match::Start,
            9 => Match::DroppedballReady,
            10 => Match::DroppedballStart,
            11 => Match::KickOffReady,
            12 => Match::KickOffStart,
            13 => Match::FreeKickReady,
            14 => Match::FreeKickStart,
            15 => Match::GoalKickReady,
            16 => Match::GoalKickStart,
            17 => Match::ThrowInReady,
            18 => Match::ThrowInStart,
            19 => Match::CornerKickReady,
            20 => Match::CornerKickStart,
            21 => Match::PenaltyReady,
            22 => Match::PenaltyStart,
            31 => Match::CounterKickoffReady,
            32 => Match::CounterKickoffStart,
            33 => Match::CounterFreeKickReady,
            34 => Match::CounterFreeKickStart,
            35 => Match::CounterGoalKickReady,
            36 => Match::CounterGoalKickStart,
            37 => Match::CounterThrowInReady,
            38 => Match::CounterThrowInStart,
            39 => Match::CounterCornerKickReady,
            40 => Match::CounterCornerKickStart,
            41 => Match::CounterPenaltyReady,
            42 => Match::CounterPenaltyStart,
            90 => Match::TechChallange,
            100 => Match::TestPassing,
            101 => Match::Test4pass,
            102 => Match::TestAllDef,
            103 => Match::TestMoveAround,
            104 => Match::TestCatchMove,
            _ => Match::UndefinedVal,
        }
    }

    /// Every match state is found again from its own code.
    pub proof fn lemma_code_round_trip(self)
        ensures
            Self::of_code(self.code()) == self,
    {
    }

    /// A byte resolves to a match state with that very code, or to the sentinel.
    pub proof fn lemma_unknown_is_sentinel(b: u8)
        ensures
            Self::of_code(b).code() == b || Self::of_code(b) == Match::UndefinedVal,
    {
    }
}

impl Default for Match {
    fn default() -> (v: Self)
        ensures
            v == Match::UndefinedVal,
    {
        Match::UndefinedVal
    }
}

impl From<u8> for Match {
    fn from(b: u8) -> (v: Self) {
        Match::from_u8(b)
    }
}

impl FromSpecImpl<u8> for Match {
    open spec fn obeys_from_spec() -> bool {
        true
    }

    open spec fn from_spec(b: u8) -> Self {
        Match::of_code(b)
    }
}

impl From<Match> for u8 {
    fn from(v: Match) -> (b: u8) {
        v.to_u8()
    }
}

impl FromSpecImpl<Match> for u8 {
    open spec fn obeys_from_spec() -> bool {
        true
    }

    open spec fn from_spec(v: Match) -> u8 {
        v.code()
    }
}
} // verus!
