//! Field-operations core of a RoboCup team: the fixed-layout, checksummed
//! binary packets exchanged between robot and coach, and the inertial sensor
//! frame read from the serial line.

pub mod byte_reader;
pub mod byte_writer;
pub mod data_legacy;
pub mod error;
pub mod robot;
pub mod traits;
pub mod ui_components;
pub mod vector;
pub mod wire;

