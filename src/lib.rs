//! A driver for Metriful MS430 indoor environment sensors.
//!
//! The library holds the protocol logic of the sensor: decoding of its
//! register payloads into typed readings, decoding of its status registers,
//! the operational-mode state machine, and the read strategies layered on
//! top of it. Every step that touches the bus or the ready line, or sleeps,
//! is described by the library as a value (a register read, a command write,
//! a sleep, a wait for the ready line) and carried out by the caller, which
//! hands the outcome back.
use vstd::prelude::*;

pub mod codec;
pub mod error;
pub mod metric;
pub mod session;
pub mod status;
pub mod strategy;
pub mod unit;

pub use error::{MetrifulError, Result};
pub use session::{Command, Metriful, WaitStep};
pub use status::{
    CyclePeriod, DeviceStatus, InterruptMode, InterruptPolarity, InterruptStatus, LightInterrupt,
    OperationalMode, ParticleSensorMode, RegisterRead, SoundInterrupt, StatusStep,
};

verus! {

/// Default i2c address of the sensor (0x70 if the solder bridge is closed).
pub const METRIFUL_ADDRESS: u16 = 0x71;

/// Interval, in milliseconds, at which the ready line is polled.
pub const READY_POLL_INTERVAL: u64 = 10;

} // verus!
