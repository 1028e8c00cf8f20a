//! What runs on a robot.

pub mod com_mpu;
pub mod test_network_legacy;
