use vstd::prelude::*;

use crate::status::OperationalMode;

verus! {

/// The reasons for which an operation of this library fails.
#[derive(Debug, Clone)]
pub enum MetrifulError {
    /// The i2c bus reported a failure; the message describes it.
    I2CError(String),
    /// The ready line reported a failure; the message describes it.
    GPIOError(String),
    /// The particle sensor mode register held an unknown value.
    InvalidParticleSensorMode(u8),
    /// The cycle period register held an unknown value.
    InvalidCyclePeriod(u8),
    /// A textual cycle period was not recognised.
    InvalidCyclePeriodString(String),
    /// The operational mode register held an unknown value.
    InvalidOperationalMode(u8),
    /// The configured timeout passed while waiting on the ready line.
    ReadyTimeoutExceeded,
    /// The operation needs a device status, and none was ever read.
    StatusMissing,
    /// The operation needs the device to be ready, and it was not.
    NotReady,
    /// The operation needs the device in mode `required`; it is in `current`.
    InvalidMode { current: OperationalMode, required: OperationalMode },
    /// The AQI accuracy byte was outside 0..=3.
    InvalidAQIAccuracy(u8),
    /// The sound measurement stability byte was outside 0..=1.
    InvalidSoundMeasurementStability(u8),
    /// The particle data validity byte was outside 0..=1.
    InvalidParticleDataValidity(u8),
    /// The sound level bands could not be assembled.
    DecibelBandsError,
    /// The all-domains aggregate cannot be decoded from a single block.
    InvalidCombinedDataFromBytes,
}

/// The result of an operation of this library.
pub type Result<T> = core::result::Result<T, MetrifulError>;

} // verus!
