//! Fixed configuration constants.
//!
//! These values are calibration for a specific actuator and radio profile,
//! not arbitrary choices: the timing constants encode the unlock pulse, the
//! drive parameters the actuator's control signal, and the interval bounds
//! the advertising profile of the radio.

use vstd::prelude::*;

verus! {

/// Rest position of the actuator, in degrees.
pub const REST_DEGREE: u8 = 0;

/// Largest angle a command may ask for, in degrees.
pub const MAX_DEGREE: u8 = 180;

/// Hold time at the commanded angle before returning to rest, in milliseconds.
pub const DWELL_MS: u32 = 1000;

/// Hold time at rest after a return move, before the next command, in
/// milliseconds.
pub const SETTLE_MS: u32 = 1000;

/// Drive frequency of the actuator's duty-cycle output, in hertz.
pub const DRIVE_FREQUENCY_HZ: u32 = 50;

/// Resolution of the duty register, in bits.
pub const DUTY_RESOLUTION_BITS: u32 = 14;

/// Lower advertising interval bound, in 0.625 ms units (800 ms).
pub const ADV_MIN_INTERVAL: u16 = 1280;

/// Upper advertising interval bound, in 0.625 ms units (1000 ms).
pub const ADV_MAX_INTERVAL: u16 = 1600;

/// Minimum connection interval proposed to a newly connected peer.
pub const CONN_MIN_INTERVAL: u16 = 24;

/// Maximum connection interval proposed to a newly connected peer.
pub const CONN_MAX_INTERVAL: u16 = 48;

/// Peripheral latency proposed to a newly connected peer.
pub const CONN_LATENCY: u16 = 0;

/// Supervision timeout proposed to a newly connected peer, in 10 ms units.
pub const CONN_TIMEOUT: u16 = 60;

} // verus!
