//! A single-actuator lock controller.
//!
//! A remote peer writes a decimal angle to a wireless control channel; the
//! command receiver validates it and hands it through a capacity-one channel
//! to the actuator controller, which drives the actuator to the commanded
//! angle, dwells, and returns it to rest.

pub mod channel;
pub mod command;
pub mod config;
pub mod controller;
pub mod duty;
