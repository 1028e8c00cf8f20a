//! Why a buffer was not accepted as a packet.

use vstd::prelude::*;

verus! {

/// A field of a packet, as the decoder reads them.
#[derive(Clone, Copy, Debug, PartialEq, Eq, Hash, Structural)]
pub enum PackField {
    /// The declared length byte.
    SetLen,
    Id,
    MsgType,
    Pos,
    Angle,
    /// The byte that holds a robot's directive and its ball flag.
    CtrlAndFoundBall,
    FoundBallPos,
    Velocity,
    VelocityAngle,
    PassKick,
    PassTargetPos,
    BarrierSize,
    BarrierPos,
    ComputerAc,
    ComputerBatteryFlag,
    ComputerBatteryPercent,
    ComputerWorkingSecondCount,
    ComputerCpuPercent,
    ComputerCpuFrequency,
    SoftVersion,
    RobotPowerVolt,
    RobotCharge,
    VideoFps,
    MulticastFps,
    /// The byte that holds a player's directive and its ball flag.
    PlayerCtrlByte,
    PlayerPos,
    PlayerAngle,
    SetupPos,
    FoundBall,
    BallPosFromCoach,
    Ctrl,
    TargetPos,
    TargetAngle,
    Speed,
    DefAngle,
    DefDist,
    CatchFromPos,
}

impl PackField {
    /// The field's name, as it is written in reports.
    pub open spec fn label(self) -> Seq<char> {
        match self {
            PackField::SetLen => "set_len"@,
            PackField::Id => "id"@,
            PackField::MsgType => "msg_type"@,
            PackField::Pos => "pos"@,
            PackField::Angle => "angle"@,
            PackField::CtrlAndFoundBall => "ctrl & found_ball"@,
            PackField::FoundBallPos => "found_ball_pos"@,
            PackField::Velocity => "velocity"@,
            PackField::VelocityAngle => "velocity_angle"@,
            PackField::PassKick => "pass_kick"@,
            PackField::PassTargetPos => "pass_target_pos"@,
            PackField::BarrierSize => "barrier.size"@,
            PackField::BarrierPos => "barrier.pos"@,
            PackField::ComputerAc => "computer_ac"@,
            PackField::ComputerBatteryFlag => "computer_battery_flag"@,
            PackField::ComputerBatteryPercent => "computer_battery_percent"@,
            PackField::ComputerWorkingSecondCount => "computer_working_second_count"@,
            PackField::ComputerCpuPercent => "computer_cpu_percent"@,
            PackField::ComputerCpuFrequency => "computer_cpu_frequency"@,
            PackField::SoftVersion => "soft_version"@,
            PackField::RobotPowerVolt => "robot_power_volt"@,
            PackField::RobotCharge => "robot_charge"@,
            PackField::VideoFps => "video_fps"@,
            PackField::MulticastFps => "multicast_fps"@,
            PackField::PlayerCtrlByte => "player.ctrl_byte"@,
            PackField::PlayerPos => "player.pos"@,
            PackField::PlayerAngle => "player.angle"@,
            PackField::SetupPos => "setup_pos"@,
            PackField::FoundBall => "found_ball"@,
            PackField::BallPosFromCoach => "ball_pos_from_coach"@,
            PackField::Ctrl => "ctrl"@,
            PackField::TargetPos => "target_pos"@,
            PackField::TargetAngle => "target_angle"@,
            PackField::Speed => "speed"@,
            PackField::DefAngle => "def_angle"@,
            PackField::DefDist => "def_dist"@,
            PackField::CatchFromPos => "catch_from_pos"@,
        }
    }

    pub fn name(self) -> (s: &'static str)
        ensures
            s@ == self.label(),
    {
        match self {
            PackField::SetLen => "set_len",
            PackField::Id => "id",
            PackField::MsgType => "msg_type",
            PackField::Pos => "pos",
            PackField::Angle => "angle",
            PackField::CtrlAndFoundBall => "ctrl & found_ball",
            PackField::FoundBallPos => "found_ball_pos",
            PackField::Velocity => "velocity",
            PackField::VelocityAngle => "velocity_angle",
            PackField::PassKick => "pass_kick",
            PackField::PassTargetPos => "pass_target_pos",
            PackField::BarrierSize => "barrier.size",
            PackField::BarrierPos => "barrier.pos",
            PackField::ComputerAc => "computer_ac",
            PackField::ComputerBatteryFlag => "computer_battery_flag",
            PackField::ComputerBatteryPercent => "computer_battery_percent",
            PackField::ComputerWorkingSecondCount => "computer_working_second_count",
            PackField::ComputerCpuPercent => "computer_cpu_percent",
            PackField::ComputerCpuFrequency => "computer_cpu_frequency",
            PackField::SoftVersion => "soft_version",
            PackField::RobotPowerVolt => "robot_power_volt",
            PackField::RobotCharge => "robot_charge",
            PackField::VideoFps => "video_fps",
            PackField::MulticastFps => "multicast_fps",
            PackField::PlayerCtrlByte => "player.ctrl_byte",
            PackField::PlayerPos => "player.pos",
            PackField::PlayerAngle => "player.angle",
            PackField::SetupPos => "setup_pos",
            PackField::FoundBall => "found_ball",
            PackField::BallPosFromCoach => "ball_pos_from_coach",
            PackField::Ctrl => "ctrl",
            PackField::TargetPos => "target_pos",
            PackField::TargetAngle => "target_angle",
            PackField::Speed => "speed",
            PackField::DefAngle => "def_angle",
            PackField::DefDist => "def_dist",
            PackField::CatchFromPos => "catch_from_pos",
        }
    }
}

/// The ways a decode fails. None is recovered from here: the caller decides
/// whether to drop the buffer, log it or ask for it again.
#[derive(Clone, Copy, Debug, PartialEq, Eq, Hash, Structural)]
pub enum DecodeError {
    /// The buffer ended before this field could be read.
    TruncatedField(PackField),
    /// The buffer holds fewer bytes than its length byte declares.
    LengthMismatch,
    /// The last byte is not the checksum of the bytes before it.
    ChecksumMismatch { computed: u8, expected: u8 },
}

} // verus!
