//! The verified core of a body-worn orientation tracker: the outgoing-packet
//! store that the sensor and protocol tasks feed and the network task drains,
//! the sensor task's handling of each poll of an IMU driver, the fusion clock's
//! bookkeeping, and the fixed boot sequence.

use vstd::prelude::*;

pub mod boot;
pub mod clock;
pub mod imu;
pub mod packets;

verus! {

/// Why the desktop overlay was asked to stop.
#[derive(Clone, Copy, Debug, PartialEq, Eq)]
pub enum ShutdownReason {
    CtrlC,
}

} // verus!
