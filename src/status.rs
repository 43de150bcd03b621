use vstd::prelude::*;

use crate::codec::{fixed_u16, read_u16_le, spec_fixed_u16, spec_u16_le, FixedPoint};
use crate::error::{MetrifulError, Result};

verus! {

/// The measurement cycles built into the sensor.
#[derive(Debug, Clone, Copy, PartialEq, Eq, Structural, PartialOrd, Ord)]
pub enum CyclePeriod {
    /// 3 second cycles.
    Period0,
    /// 100 second cycles.
    Period1,
    /// 300 second cycles.
    Period2,
}

impl CyclePeriod {
    /// The register value that selects this period.
    pub open spec fn spec_value(self) -> u8 {
        match self {
            CyclePeriod::Period0 => 0,
            CyclePeriod::Period1 => 1,
            CyclePeriod::Period2 => 2,
        }
    }

    /// The period that a register value selects, or the error for an unknown one.
    pub open spec fn spec_from_value(value: u8) -> Result<CyclePeriod> {
        if value == 0 {
            Ok(CyclePeriod::Period0)
        } else if value == 1 {
            Ok(CyclePeriod::Period1)
        } else if value == 2 {
            Ok(CyclePeriod::Period2)
        } else {
            Err(MetrifulError::InvalidCyclePeriod(value))
        }
    }

    /// The length of the period in seconds.
    pub open spec fn spec_seconds(self) -> u64 {
        match self {
            CyclePeriod::Period0 => 3,
            CyclePeriod::Period1 => 100,
            CyclePeriod::Period2 => 300,
        }
    }

    /// Returns the period for a register value.
    pub fn from_value(value: u8) -> (r: Result<CyclePeriod>)
        ensures
            r == Self::spec_from_value(value),
    {
        match value {
            0 => Ok(CyclePeriod::Period0),
            1 => Ok(CyclePeriod::Period1),
            2 => Ok(CyclePeriod::Period2),
            _ => Err(MetrifulError::InvalidCyclePeriod(value)),
        }
    }

    /// Returns the register value for this period: 0, 1 or 2.
    pub fn to_value(&self) -> (r: u8)
        ensures
            r == self.spec_value(),
    {
        match self {
            CyclePeriod::Period0 => 0,
            CyclePeriod::Period1 => 1,
            CyclePeriod::Period2 => 2,
        }
    }

    /// Returns the length of this period, in seconds.
    pub fn to_duration(&self) -> (secs: u64)
        ensures
            secs == self.spec_seconds(),
    {
        match self {
            CyclePeriod::Period0 => 3,
            CyclePeriod::Period1 => 100,
            CyclePeriod::Period2 => 300,
        }
    }
}

/// Whether `s` holds exactly the characters of `lit`.
fn str_is(s: &str, lit: &str) -> (r: bool)
    ensures
        r == (s@ == lit@),
{
    let n = s.unicode_len();
    if n != lit.unicode_len() {
        return false;
    }
    let mut i: usize = 0;
    while i < n
        invariant
            n == s@.len(),
            n == lit@.len(),
            i <= n,
            forall|j: int| 0 <= j < i ==> s@[j] == lit@[j],
        decreases n - i,
    {
        if s.get_char(i) != lit.get_char(i) {
            return false;
        }
        i = i + 1;
    }
    assert(s@ =~= lit@);
    true
}

impl CyclePeriod {
    /// The period that a text names: its register value or its length in
    /// seconds with an `s` suffix.
    pub open spec fn spec_parse(s: Seq<char>) -> Option<CyclePeriod> {
        if s == "0"@ || s == "3s"@ {
            Some(CyclePeriod::Period0)
        } else if s == "1"@ || s == "100s"@ {
            Some(CyclePeriod::Period1)
        } else if s == "2"@ || s == "300s"@ {
            Some(CyclePeriod::Period2)
        } else {
            None
        }
    }

    /// Parses a period from its register value (`0`, `1`, `2`) or its
    /// length (`3s`, `100s`, `300s`).
    pub fn parse(s: &str) -> (r: Result<CyclePeriod>)
        ensures
            Self::spec_parse(s@) matches Some(p) ==> r == Ok::<CyclePeriod, MetrifulError>(p),
            Self::spec_parse(s@) is None ==> (r matches Err(MetrifulError::InvalidCyclePeriodString(t))
                && t@ == s@),
    {
        if str_is(s, "0") || str_is(s, "3s") {
            Ok(CyclePeriod::Period0)
        } else if str_is(s, "1") || str_is(s, "100s") {
            Ok(CyclePeriod::Period1)
        } else if str_is(s, "2") || str_is(s, "300s") {
            Ok(CyclePeriod::Period2)
        } else {
            Err(MetrifulError::InvalidCyclePeriodString(s.to_owned()))
        }
    }
}

impl core::str::FromStr for CyclePeriod {
    type Err = MetrifulError;

    fn from_str(s: &str) -> Result<CyclePeriod> {
        CyclePeriod::parse(s)
    }
}

/// Register values and periods correspond one to one: every period survives
/// the trip through its register value, the register values are exactly
/// 0, 1 and 2 (each of them is the value of a period), and every other byte
/// is refused as an invalid cycle period.
pub proof fn lemma_cycle_period_round_trip(p: CyclePeriod, v: u8)
    ensures
        CyclePeriod::spec_from_value(p.spec_value()) == Ok::<CyclePeriod, MetrifulError>(p),
        p.spec_value() <= 2,
        v <= 2 ==> (CyclePeriod::spec_from_value(v) matches Ok(q) && q.spec_value() == v),
        v > 2 ==> CyclePeriod::spec_from_value(v) == Err::<CyclePeriod, MetrifulError>(
            MetrifulError::InvalidCyclePeriod(v),
        ),
{
}

/// The operational mode of the device.
#[derive(Debug, Clone, Copy, PartialEq, Eq, Structural, PartialOrd, Ord)]
pub enum OperationalMode {
    /// Autonomous measurements, repeated every period.
    Cycle(CyclePeriod),
    /// Measurements only on demand.
    Standby,
}

impl OperationalMode {
    /// The worst-case time, in milliseconds, for the device to become ready
    /// after switching into this mode from its opposite mode.
    pub open spec fn spec_ready_millis(self) -> u64 {
        match self {
            OperationalMode::Standby => 11,
            OperationalMode::Cycle(CyclePeriod::Period0) => 600,
            OperationalMode::Cycle(_) => 2600,
        }
    }

    /// Whether switching to this mode directly from `from` is allowed: only
    /// between standby and a cycle mode.
    pub open spec fn spec_switch_allowed(self, from: OperationalMode) -> bool {
        match self {
            OperationalMode::Standby => from is Cycle,
            OperationalMode::Cycle(_) => from is Standby,
        }
    }

    /// Determines if it is valid to switch to this mode from `from`.
    pub fn is_switch_allowed(&self, from: OperationalMode) -> (r: bool)
        ensures
            r == self.spec_switch_allowed(from),
    {
        match self {
            OperationalMode::Standby => !matches!(from, OperationalMode::Standby),
            OperationalMode::Cycle(_) => !matches!(from, OperationalMode::Cycle(_)),
        }
    }

    /// Returns the maximum expected time, in milliseconds, for the device to
    /// become ready after switching to this mode from its opposite mode.
    pub fn ready_duration(&self) -> (millis: u64)
        ensures
            millis == self.spec_ready_millis(),
    {
        match self {
            OperationalMode::Standby => 11,
            OperationalMode::Cycle(CyclePeriod::Period0) => 600,
            OperationalMode::Cycle(_) => 2600,
        }
    }
}

/// The external particle sensor configured on the device.
#[derive(Debug, Clone, Copy, PartialEq, Eq, Structural)]
pub enum ParticleSensorMode {
    Disabled,
    EnabledPPD42,
    EnabledSDS011,
}

impl ParticleSensorMode {
    /// The register value of this mode.
    pub open spec fn spec_value(self) -> u8 {
        match self {
            ParticleSensorMode::Disabled => 0,
            ParticleSensorMode::EnabledPPD42 => 1,
            ParticleSensorMode::EnabledSDS011 => 2,
        }
    }

    /// The mode that a register value stands for, or the error for an unknown one.
    pub open spec fn spec_from_value(value: u8) -> Result<ParticleSensorMode> {
        if value == 0 {
            Ok(ParticleSensorMode::Disabled)
        } else if value == 1 {
            Ok(ParticleSensorMode::EnabledPPD42)
        } else if value == 2 {
            Ok(ParticleSensorMode::EnabledSDS011)
        } else {
            Err(MetrifulError::InvalidParticleSensorMode(value))
        }
    }

    /// Returns the mode for a register value.
    pub fn from_value(value: u8) -> (r: Result<ParticleSensorMode>)
        ensures
            r == Self::spec_from_value(value),
    {
        match value {
            0 => Ok(ParticleSensorMode::Disabled),
            1 => Ok(ParticleSensorMode::EnabledPPD42),
            2 => Ok(ParticleSensorMode::EnabledSDS011),
            _ => Err(MetrifulError::InvalidParticleSensorMode(value)),
        }
    }

    /// Returns the register value of this mode.
    pub fn to_value(&self) -> (r: u8)
        ensures
            r == self.spec_value(),
    {
        match self {
            ParticleSensorMode::Disabled => 0,
            ParticleSensorMode::EnabledPPD42 => 1,
            ParticleSensorMode::EnabledSDS011 => 2,
        }
    }
}

/// Whether an interrupt is enabled, and its configuration if it is.
#[derive(Debug, Clone, Copy, PartialEq, Eq, Structural)]
pub enum InterruptStatus<T> {
    Disabled,
    Enabled(T),
}

/// How an interrupt line behaves once triggered.
#[derive(Debug, Clone, Copy, PartialEq, Eq, Structural)]
pub enum InterruptMode {
    Latch,
    Comparator,
}

impl InterruptMode {
    /// The mode that a register byte stands for: 0 is latch, anything else comparator.
    pub open spec fn spec_from_byte(byte: u8) -> InterruptMode {
        if byte == 0 {
            InterruptMode::Latch
        } else {
            InterruptMode::Comparator
        }
    }

    /// Decodes an interrupt mode byte.
    pub fn from_byte(byte: u8) -> (r: InterruptMode)
        ensures
            r == Self::spec_from_byte(byte),
    {
        if byte == 0 {
            InterruptMode::Latch
        } else {
            InterruptMode::Comparator
        }
    }
}

/// The comparison that triggers an interrupt.
#[derive(Debug, Clone, Copy, PartialEq, Eq, Structural)]
pub enum InterruptPolarity {
    /// The interrupt triggers when the reading is above the threshold.
    Positive,
    /// The interrupt triggers when the reading is below the threshold.
    Negative,
}

impl InterruptPolarity {
    /// The polarity that a register byte stands for: 0 is positive, anything else negative.
    pub open spec fn spec_from_byte(byte: u8) -> InterruptPolarity {
        if byte == 0 {
            InterruptPolarity::Positive
        } else {
            InterruptPolarity::Negative
        }
    }

    /// Decodes an interrupt polarity byte.
    pub fn from_byte(byte: u8) -> (r: InterruptPolarity)
        ensures
            r == Self::spec_from_byte(byte),
    {
        if byte == 0 {
            InterruptPolarity::Positive
        } else {
            InterruptPolarity::Negative
        }
    }
}

/// Configuration of the sound interrupt.
#[derive(Debug, Clone, Copy, PartialEq, Eq, Structural)]
pub struct SoundInterrupt {
    pub mode: InterruptMode,
    /// Interrupt threshold in mPa.
    pub threshold: u16,
}

impl SoundInterrupt {
    /// The configuration that the mode byte and the two threshold bytes encode.
    pub open spec fn spec_decode(mode: u8, threshold: Seq<u8>) -> SoundInterrupt {
        SoundInterrupt { mode: InterruptMode::spec_from_byte(mode), threshold: spec_u16_le(threshold, 0) }
    }

    /// Decodes the mode byte (register 0x87) and the little-endian threshold
    /// (register 0x86, two bytes).
    pub fn read(mode: u8, threshold: &[u8]) -> (r: SoundInterrupt)
        requires
            threshold@.len() == 2,
        ensures
            r == Self::spec_decode(mode, threshold@),
    {
        SoundInterrupt { mode: InterruptMode::from_byte(mode), threshold: read_u16_le(threshold, 0) }
    }
}

/// Configuration of the light interrupt.
#[derive(Debug, Clone, Copy, PartialEq, Eq, Structural)]
pub struct LightInterrupt {
    pub mode: InterruptMode,
    /// Interrupt comparison polarity.
    pub polarity: InterruptPolarity,
    /// Interrupt threshold in lux.
    pub threshold: FixedPoint,
}

impl LightInterrupt {
    /// The configuration that the mode and polarity bytes and the three
    /// threshold bytes encode.
    pub open spec fn spec_decode(mode: u8, polarity: u8, threshold: Seq<u8>) -> LightInterrupt {
        LightInterrupt {
            mode: InterruptMode::spec_from_byte(mode),
            polarity: InterruptPolarity::spec_from_byte(polarity),
            threshold: spec_fixed_u16(threshold, 0),
        }
    }

    /// Decodes the mode byte (register 0x83), the polarity byte (register
    /// 0x84) and the threshold (register 0x82: a little-endian integer part
    /// and a fraction byte).
    pub fn read(mode: u8, polarity: u8, threshold: &[u8]) -> (r: LightInterrupt)
        requires
            threshold@.len() == 3,
        ensures
            r == Self::spec_decode(mode, polarity, threshold@),
    {
        LightInterrupt {
            mode: InterruptMode::from_byte(mode),
            polarity: InterruptPolarity::from_byte(polarity),
            threshold: fixed_u16(threshold, 0),
        }
    }
}

/// A snapshot of the device's configuration and mode.
#[derive(Debug, Clone, Copy, PartialEq, Eq, Structural)]
pub struct DeviceStatus {
    pub particle_sensor: ParticleSensorMode,
    pub light_int: InterruptStatus<LightInterrupt>,
    pub sound_int: InterruptStatus<SoundInterrupt>,
    pub mode: OperationalMode,
}

/// A register read on the bus.
#[derive(Debug, Clone, Copy, PartialEq, Eq, Structural)]
pub enum RegisterRead {
    /// One byte from the register.
    Byte(u8),
    /// A block of `len` bytes from `register`.
    Block { register: u8, len: u8 },
}

/// Register of the particle sensor mode.
pub const PARTICLE_SENSOR_REGISTER: u8 = 0x07;
/// Register of the light interrupt enable flag.
pub const LIGHT_INT_ENABLE_REGISTER: u8 = 0x81;
/// Register of the light interrupt threshold.
pub const LIGHT_INT_THRESHOLD_REGISTER: u8 = 0x82;
/// Register of the light interrupt mode.
pub const LIGHT_INT_MODE_REGISTER: u8 = 0x83;
/// Register of the light interrupt polarity.
pub const LIGHT_INT_POLARITY_REGISTER: u8 = 0x84;
/// Register of the sound interrupt enable flag (a byte read) and of its
/// threshold (a block read).
pub const SOUND_INT_ENABLE_REGISTER: u8 = 0x86;
/// Register of the sound interrupt mode.
pub const SOUND_INT_MODE_REGISTER: u8 = 0x87;
/// Register of the cycle period.
pub const CYCLE_PERIOD_REGISTER: u8 = 0x89;
/// Register of the operational mode.
pub const OPERATIONAL_MODE_REGISTER: u8 = 0x8A;

/// One step of reading the status: the next register to read, or the outcome.
#[derive(Debug)]
pub enum StatusStep {
    Read(RegisterRead),
    Done(Result<DeviceStatus>),
}

/// Where the light interrupt section ends in the bytes read so far: after
/// the enable flag alone, or after the mode, polarity and three threshold bytes.
pub open spec fn light_end(a: Seq<u8>) -> int {
    if a[1] != 0 {
        7
    } else {
        2
    }
}

/// Where the sound interrupt section ends: after its enable flag alone, or
/// after the mode and two threshold bytes.
pub open spec fn sound_end(a: Seq<u8>) -> int {
    let l = light_end(a);
    if a[l] != 0 {
        l + 4
    } else {
        l + 1
    }
}

/// The status that the bytes `a` read so far describe, in mode `mode`.
pub open spec fn spec_status(a: Seq<u8>, particle_sensor: ParticleSensorMode, mode: OperationalMode) -> DeviceStatus {
    let l = light_end(a);
    DeviceStatus {
        particle_sensor,
        light_int: if a[1] != 0 {
            InterruptStatus::Enabled(LightInterrupt::spec_decode(a[2], a[3], a.subrange(4, 7)))
        } else {
            InterruptStatus::Disabled
        },
        sound_int: if a[l] != 0 {
            InterruptStatus::Enabled(SoundInterrupt::spec_decode(a[l + 1], a.subrange(l + 2, l + 4)))
        } else {
            InterruptStatus::Disabled
        },
        mode,
    }
}

/// The status read protocol, given the bytes `a` read so far in order (one
/// per byte read, `len` per block read).
///
/// It reads the particle sensor mode; the light interrupt enable flag and,
/// if set, the light interrupt mode, polarity and threshold; the sound
/// interrupt enable flag and, if set, its mode and threshold; the
/// operational mode and, in cycle mode, the cycle period. An unknown
/// particle sensor mode, operational mode or cycle period ends it with an error.
pub open spec fn spec_status_step(a: Seq<u8>) -> StatusStep {
    if a.len() == 0 {
        StatusStep::Read(RegisterRead::Byte(PARTICLE_SENSOR_REGISTER))
    } else {
        match ParticleSensorMode::spec_from_value(a[0]) {
            Err(e) => StatusStep::Done(Err(e)),
            Ok(particle_sensor) => {
                let l = light_end(a);
                let s = sound_end(a);
                if a.len() == 1 {
                    StatusStep::Read(RegisterRead::Byte(LIGHT_INT_ENABLE_REGISTER))
                } else if a.len() < l {
                    if a.len() == 2 {
                        StatusStep::Read(RegisterRead::Byte(LIGHT_INT_MODE_REGISTER))
                    } else if a.len() == 3 {
                        StatusStep::Read(RegisterRead::Byte(LIGHT_INT_POLARITY_REGISTER))
                    } else {
                        StatusStep::Read(RegisterRead::Block { register: LIGHT_INT_THRESHOLD_REGISTER, len: 3 })
                    }
                } else if a.len() == l {
                    StatusStep::Read(RegisterRead::Byte(SOUND_INT_ENABLE_REGISTER))
                } else if a.len() < s {
                    if a.len() == l + 1 {
                        StatusStep::Read(RegisterRead::Byte(SOUND_INT_MODE_REGISTER))
                    } else {
                        StatusStep::Read(RegisterRead::Block { register: SOUND_INT_ENABLE_REGISTER, len: 2 })
                    }
                } else if a.len() == s {
                    StatusStep::Read(RegisterRead::Byte(OPERATIONAL_MODE_REGISTER))
                } else if a[s] == 0 {
                    StatusStep::Done(Ok(spec_status(a, particle_sensor, OperationalMode::Standby)))
                } else if a[s] == 1 {
                    if a.len() == s + 1 {
                        StatusStep::Read(RegisterRead::Byte(CYCLE_PERIOD_REGISTER))
                    } else {
                        match CyclePeriod::spec_from_value(a[s + 1]) {
                            Ok(p) => StatusStep::Done(Ok(spec_status(a, particle_sensor, OperationalMode::Cycle(p)))),
                            Err(e) => StatusStep::Done(Err(e)),
                        }
                    }
                } else {
                    StatusStep::Done(Err(MetrifulError::InvalidOperationalMode(a[s])))
                }
            },
        }
    }
}

impl DeviceStatus {
    /// Reads the status: given the bytes read so far, returns the next
    /// register to read, or the decoded status once all are in.
    pub fn read(a: &[u8]) -> (r: StatusStep)
        ensures
            r == spec_status_step(a@),
    {
        let n = a.len();
        if n == 0 {
            return StatusStep::Read(RegisterRead::Byte(PARTICLE_SENSOR_REGISTER));
        }
        let particle_sensor = match ParticleSensorMode::from_value(a[0]) {
            Err(e) => return StatusStep::Done(Err(e)),
            Ok(p) => p,
        };
        if n == 1 {
            return StatusStep::Read(RegisterRead::Byte(LIGHT_INT_ENABLE_REGISTER));
        }
        let l: usize = if a[1] != 0 { 7 } else { 2 };
        if n < l {
            if n == 2 {
                return StatusStep::Read(RegisterRead::Byte(LIGHT_INT_MODE_REGISTER));
            } else if n == 3 {
                return StatusStep::Read(RegisterRead::Byte(LIGHT_INT_POLARITY_REGISTER));
            } else {
                return StatusStep::Read(RegisterRead::Block { register: LIGHT_INT_THRESHOLD_REGISTER, len: 3 });
            }
        }
        if n == l {
            return StatusStep::Read(RegisterRead::Byte(SOUND_INT_ENABLE_REGISTER));
        }
        let s: usize = if a[l] != 0 { l + 4 } else { l + 1 };
        if n < s {
            if n == l + 1 {
                return StatusStep::Read(RegisterRead::Byte(SOUND_INT_MODE_REGISTER));
            } else {
                return StatusStep::Read(RegisterRead::Block { register: SOUND_INT_ENABLE_REGISTER, len: 2 });
            }
        }
        if n == s {
            return StatusStep::Read(RegisterRead::Byte(OPERATIONAL_MODE_REGISTER));
        }
        let mode = if a[s] == 0 {
            OperationalMode::Standby
        } else if a[s] == 1 {
            if n == s + 1 {
                return StatusStep::Read(RegisterRead::Byte(CYCLE_PERIOD_REGISTER));
            }
            match CyclePeriod::from_value(a[s + 1]) {
                Ok(p) => OperationalMode::Cycle(p),
                Err(e) => return StatusStep::Done(Err(e)),
            }
        } else {
            return StatusStep::Done(Err(MetrifulError::InvalidOperationalMode(a[s])));
        };
        let light_int = if a[1] != 0 {
            InterruptStatus::Enabled(LightInterrupt::read(a[2], a[3], &a[4..7]))
        } else {
            InterruptStatus::Disabled
        };
        let sound_int = if a[l] != 0 {
            InterruptStatus::Enabled(SoundInterrupt::read(a[l + 1], &a[l + 2..l + 4]))
        } else {
            InterruptStatus::Disabled
        };
        StatusStep::Done(Ok(DeviceStatus { particle_sensor, light_int, sound_int, mode }))
    }
}

/// The number of bytes that a register read returns.
pub open spec fn spec_read_len(read: RegisterRead) -> nat {
    match read {
        RegisterRead::Byte(_) => 1,
        RegisterRead::Block { len, .. } => len as nat,
    }
}

/// Whether every answer of `dev` to a register read has the length the read asks for.
pub open spec fn answers_fit(dev: spec_fn(RegisterRead) -> Seq<u8>) -> bool {
    forall|r: RegisterRead| #[trigger] dev(r).len() == spec_read_len(r)
}

/// The status read protocol run against a device that answers each register
/// read `r` with `dev(r)`, from the bytes `a` read so far, for at most
/// `reads` more reads.
pub open spec fn spec_status_run(dev: spec_fn(RegisterRead) -> Seq<u8>, a: Seq<u8>, reads: nat) -> StatusStep
    decreases reads,
{
    match spec_status_step(a) {
        StatusStep::Read(r) => if reads == 0 {
            StatusStep::Read(r)
        } else {
            spec_status_run(dev, a + dev(r), (reads - 1) as nat)
        },
        StatusStep::Done(outcome) => StatusStep::Done(outcome),
    }
}

/// The status that the registers of a device describe.
pub open spec fn spec_status_of(dev: spec_fn(RegisterRead) -> Seq<u8>) -> Result<DeviceStatus> {
    let byte = |register: u8| dev(RegisterRead::Byte(register))[0];
    match ParticleSensorMode::spec_from_value(byte(PARTICLE_SENSOR_REGISTER)) {
        Err(e) => Err(e),
        Ok(particle_sensor) => {
            let light_int = if byte(LIGHT_INT_ENABLE_REGISTER) != 0 {
                InterruptStatus::Enabled(
                    LightInterrupt::spec_decode(
                        byte(LIGHT_INT_MODE_REGISTER),
                        byte(LIGHT_INT_POLARITY_REGISTER),
                        dev(RegisterRead::Block { register: LIGHT_INT_THRESHOLD_REGISTER, len: 3 }),
                    ),
                )
            } else {
                InterruptStatus::Disabled
            };
            let sound_int = if byte(SOUND_INT_ENABLE_REGISTER) != 0 {
                InterruptStatus::Enabled(
                    SoundInterrupt::spec_decode(
                        byte(SOUND_INT_MODE_REGISTER),
                        dev(RegisterRead::Block { register: SOUND_INT_ENABLE_REGISTER, len: 2 }),
                    ),
                )
            } else {
                InterruptStatus::Disabled
            };
            let m = byte(OPERATIONAL_MODE_REGISTER);
            if m == 0 {
                Ok(DeviceStatus { particle_sensor, light_int, sound_int, mode: OperationalMode::Standby })
            } else if m == 1 {
                match CyclePeriod::spec_from_value(byte(CYCLE_PERIOD_REGISTER)) {
                    Ok(p) => Ok(DeviceStatus { particle_sensor, light_int, sound_int, mode: OperationalMode::Cycle(p) }),
                    Err(e) => Err(e),
                }
            } else {
                Err(MetrifulError::InvalidOperationalMode(m))
            }
        },
    }
}

/// Reading the status from a device ends within ten register reads with
/// the status that the device's registers describe, or with the error for
/// the first unknown value among them.
pub proof fn lemma_status_read_of_device(dev: spec_fn(RegisterRead) -> Seq<u8>)
    requires
        answers_fit(dev),
    ensures
        spec_status_run(dev, Seq::<u8>::empty(), 10) == StatusStep::Done(spec_status_of(dev)),
{
    let byte = |register: u8| dev(RegisterRead::Byte(register))[0];
    let light_block = dev(RegisterRead::Block { register: LIGHT_INT_THRESHOLD_REGISTER, len: 3 });
    let sound_block = dev(RegisterRead::Block { register: SOUND_INT_ENABLE_REGISTER, len: 2 });
    assert(light_block.len() == 3);
    assert(sound_block.len() == 2);
    let a1 = Seq::<u8>::empty() + dev(RegisterRead::Byte(PARTICLE_SENSOR_REGISTER));
    assert(a1 =~= seq![byte(PARTICLE_SENSOR_REGISTER)]);
    if ParticleSensorMode::spec_from_value(a1[0]) is Err {
        reveal_with_fuel(spec_status_run, 2);
    } else {
        let a2 = a1.push(byte(LIGHT_INT_ENABLE_REGISTER));
        assert(a1 + dev(RegisterRead::Byte(LIGHT_INT_ENABLE_REGISTER)) =~= a2);
        let (l, a_l) = if byte(LIGHT_INT_ENABLE_REGISTER) != 0 {
            let a3 = a2.push(byte(LIGHT_INT_MODE_REGISTER));
            assert(a2 + dev(RegisterRead::Byte(LIGHT_INT_MODE_REGISTER)) =~= a3);
            let a4 = a3.push(byte(LIGHT_INT_POLARITY_REGISTER));
            assert(a3 + dev(RegisterRead::Byte(LIGHT_INT_POLARITY_REGISTER)) =~= a4);
            let a7 = a4 + light_block;
            assert(a7.subrange(4, 7) =~= light_block);
            (7int, a7)
        } else {
            (2int, a2)
        };
        assert(light_end(a_l) == l);
        let b = a_l.push(byte(SOUND_INT_ENABLE_REGISTER));
        assert(a_l + dev(RegisterRead::Byte(SOUND_INT_ENABLE_REGISTER)) =~= b);
        let (sd, a_s) = if byte(SOUND_INT_ENABLE_REGISTER) != 0 {
            let c = b.push(byte(SOUND_INT_MODE_REGISTER));
            assert(b + dev(RegisterRead::Byte(SOUND_INT_MODE_REGISTER)) =~= c);
            let d = c + sound_block;
            assert(d.subrange(l + 2, l + 4) =~= sound_block);
            (l + 4, d)
        } else {
            (l + 1, b)
        };
        assert(sound_end(a_s) == sd);
        let e = a_s.push(byte(OPERATIONAL_MODE_REGISTER));
        assert(a_s + dev(RegisterRead::Byte(OPERATIONAL_MODE_REGISTER)) =~= e);
        let f = e.push(byte(CYCLE_PERIOD_REGISTER));
        assert(e + dev(RegisterRead::Byte(CYCLE_PERIOD_REGISTER)) =~= f);
        assert(light_end(f) == l && sound_end(f) == sd);
        assert(light_end(e) == l && sound_end(e) == sd);
        reveal_with_fuel(spec_status_run, 11);
    }
}

} // verus!
