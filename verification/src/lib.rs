//! Controller logic for a bar's flow taps: the device table read from the
//! configuration, the Redis connection settings, the Modbus requests sent to a
//! tap's controller, and the state machine that runs a pour.

pub mod config;
pub mod pour;
pub mod redis_connect;
pub mod modbus_helper;
pub mod service;
