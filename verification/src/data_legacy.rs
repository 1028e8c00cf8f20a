//! The packets exchanged between robot and coach.

pub mod barrier;
pub mod coach;
pub mod coach_laws;
pub mod codes;
pub mod ctrl_byte;
pub mod decode_error;
pub mod player;
pub mod robot;
pub mod robot_laws;
pub mod seal;

pub use coach::LegacyPackFromCoach;
pub use codes::{LegacyCtrl, LegacyMsgType, Match};
pub use decode_error::{DecodeError, PackField};
pub use barrier::LegacyPackBarrier;
pub use player::LegacyPackFromCoachPlayer;
pub use robot::LegacyPackFromRobot;
