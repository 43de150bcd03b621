//! The metrics of the sensor: each binds a register to a unit.
use vstd::prelude::*;

use crate::error::{MetrifulError, Result};
use crate::unit::{
    blocks_answer, spec_block_error, spec_first_block_error, stamped, BlockRead, MetrifulUnit, Timestamp, UnitValue,
    UnitAQIAccuracy, UnitAWeightedSPL, UnitAirQualityIndex, UnitCombinedAirData, UnitCombinedAirQualityData, UnitCombinedData, UnitCombinedLightData, UnitCombinedParticleData, UnitCombinedSoundData, UnitDegreesCelsius, UnitIlluminance, UnitMillipascal, UnitParticleDataValidity, UnitPartsPerMillion, UnitPascals, UnitPercent, UnitRawParticleConcentration, UnitRelativeHumidity, UnitResistance, UnitSPLFrequencyBands, UnitSoundMeasurementStability, UnitWhiteLevel,
};

verus! {

/// One step of reading a metric block by block.
#[derive(Debug, Clone)]
pub enum ReadStep {
    /// Read this block next.
    Read(BlockRead),
    /// A block read so far does not decode: the read fails with this error,
    /// and no further block is read.
    Failed(MetrifulError),
    /// All blocks are in: decode them.
    Complete,
}

/// A register of the sensor, read as values of unit `U`.
#[derive(Debug, Clone, Copy)]
pub struct Metric<U: MetrifulUnit> {
    pub register: u8,
    pub unit: U,
}

impl<U: MetrifulUnit> Metric<U> {
    /// The block reads that fetch this metric.
    pub open spec fn spec_reads(self) -> Seq<BlockRead> {
        U::spec_reads(self.register)
    }

    /// The reading that the answers `blocks` to those block reads give at `time`.
    pub open spec fn spec_value(self, blocks: Seq<Seq<u8>>, time: Timestamp) -> Result<UnitValue<U>> {
        match U::spec_read(blocks, time) {
            Ok(value) => Ok(stamped(self.unit, value, time)),
            Err(e) => Err(e),
        }
    }

    /// The next step of reading this metric, given the answers `blocks` to
    /// its first block reads: the failure they already decide, else the
    /// next block read, else completion.
    pub open spec fn spec_read_step(self, blocks: Seq<Seq<u8>>) -> ReadStep {
        match U::spec_prefix_error(blocks) {
            Some(e) => ReadStep::Failed(e),
            None => if blocks.len() < self.spec_reads().len() {
                ReadStep::Read(self.spec_reads()[blocks.len() as int])
            } else {
                ReadStep::Complete
            },
        }
    }

    /// The next step of reading this metric, given the answers `blocks` to
    /// its first block reads.
    pub fn read_step(&self, blocks: &Vec<Vec<u8>>) -> (r: ReadStep)
        requires
            blocks.len() <= self.spec_reads().len(),
            blocks_answer(self.spec_reads().take(blocks.len() as int), blocks.deep_view()),
        ensures
            r == self.spec_read_step(blocks.deep_view()),
            r is Complete ==> blocks_answer(self.spec_reads(), blocks.deep_view()),
    {
        if let Some(e) = U::prefix_error(blocks) {
            return ReadStep::Failed(e);
        }
        let reads = self.reads();
        if blocks.len() < reads.len() {
            ReadStep::Read(reads[blocks.len()])
        } else {
            assert(self.spec_reads().take(blocks.len() as int) =~= self.spec_reads());
            ReadStep::Complete
        }
    }

    /// Binds `register` to `unit`.
    pub fn new(register: u8, unit: U) -> (r: Metric<U>)
        ensures
            r.register == register,
            r.unit == unit,
    {
        Metric { register, unit }
    }

    /// The block reads that fetch this metric, in order.
    pub fn reads(&self) -> (r: Vec<BlockRead>)
        ensures
            r@ == self.spec_reads(),
    {
        U::reads(self.register)
    }

    /// Decodes this metric from the answers to its block reads, stamped with `time`.
    pub fn decode(&self, blocks: &Vec<Vec<u8>>, time: Timestamp) -> (r: Result<UnitValue<U>>)
        requires
            blocks_answer(self.spec_reads(), blocks.deep_view()),
        ensures
            r == self.spec_value(blocks.deep_view(), time),
    {
        let value = U::read(blocks, time)?;
        Ok(UnitValue { unit: self.unit, value, time })
    }

    /// Decodes this metric from the answers to its block reads, stamped with
    /// the current time.
    pub fn read(&self, blocks: &Vec<Vec<u8>>) -> (r: Result<UnitValue<U>>)
        requires
            blocks_answer(self.spec_reads(), blocks.deep_view()),
        ensures
            exists|time: Timestamp| r == self.spec_value(blocks.deep_view(), time),
    {
        let time = Timestamp::now();
        self.decode(blocks, time)
    }
}

/// Temperature in degrees Celsius.
pub fn metric_temperature() -> (m: Metric<UnitDegreesCelsius>)
    ensures
        m.register == 0x21,
{
    Metric { register: 0x21, unit: UnitDegreesCelsius }
}

/// Pressure in pascals.
pub fn metric_pressure() -> (m: Metric<UnitPascals>)
    ensures
        m.register == 0x22,
{
    Metric { register: 0x22, unit: UnitPascals }
}

/// Relative humidity percentage.
pub fn metric_relative_humidity() -> (m: Metric<UnitRelativeHumidity>)
    ensures
        m.register == 0x23,
{
    Metric { register: 0x23, unit: UnitRelativeHumidity }
}

/// Gas sensor resistance in ohms.
pub fn metric_gas_resistance() -> (m: Metric<UnitResistance>)
    ensures
        m.register == 0x24,
{
    Metric { register: 0x24, unit: UnitResistance }
}

/// Combined read of the air data metrics (0x21 to 0x24).
pub fn metric_combined_air_data() -> (m: Metric<UnitCombinedAirData>)
    ensures
        m.register == 0x10,
{
    Metric { register: 0x10, unit: UnitCombinedAirData }
}

/// Air quality index; only valid in cycle mode.
pub fn metric_aqi() -> (m: Metric<UnitAirQualityIndex>)
    ensures
        m.register == 0x25,
{
    Metric { register: 0x25, unit: UnitAirQualityIndex }
}

/// Estimated CO2 concentration; only valid in cycle mode.
pub fn metric_est_co2() -> (m: Metric<UnitPartsPerMillion>)
    ensures
        m.register == 0x26,
{
    Metric { register: 0x26, unit: UnitPartsPerMillion }
}

/// Equivalent breath VOC concentration; only valid in cycle mode.
pub fn metric_voc() -> (m: Metric<UnitPartsPerMillion>)
    ensures
        m.register == 0x27,
{
    Metric { register: 0x27, unit: UnitPartsPerMillion }
}

/// AQI accuracy indicator; only valid in cycle mode.
pub fn metric_aqi_accuracy() -> (m: Metric<UnitAQIAccuracy>)
    ensures
        m.register == 0x28,
{
    Metric { register: 0x28, unit: UnitAQIAccuracy }
}

/// Combined read of the air quality metrics (0x25 to 0x28); only valid in cycle mode.
pub fn metric_combined_air_quality_data() -> (m: Metric<UnitCombinedAirQualityData>)
    ensures
        m.register == 0x11,
{
    Metric { register: 0x11, unit: UnitCombinedAirQualityData }
}

/// Illuminance in lux.
pub fn metric_illuminance() -> (m: Metric<UnitIlluminance>)
    ensures
        m.register == 0x31,
{
    Metric { register: 0x31, unit: UnitIlluminance }
}

/// White light level.
pub fn metric_white_light_level() -> (m: Metric<UnitWhiteLevel>)
    ensures
        m.register == 0x32,
{
    Metric { register: 0x32, unit: UnitWhiteLevel }
}

/// Combined read of the light metrics (0x31, 0x32).
pub fn metric_combined_light_data() -> (m: Metric<UnitCombinedLightData>)
    ensures
        m.register == 0x12,
{
    Metric { register: 0x12, unit: UnitCombinedLightData }
}

/// A-weighted sound pressure level in dBa.
pub fn metric_weighted_sound_level() -> (m: Metric<UnitAWeightedSPL>)
    ensures
        m.register == 0x41,
{
    Metric { register: 0x41, unit: UnitAWeightedSPL }
}

/// Sound pressure level by frequency band.
pub fn metric_sound_level() -> (m: Metric<UnitSPLFrequencyBands>)
    ensures
        m.register == 0x42,
{
    Metric { register: 0x42, unit: UnitSPLFrequencyBands }
}

/// Peak sound amplitude since the last read.
pub fn metric_peak_sound_amplitude() -> (m: Metric<UnitMillipascal>)
    ensures
        m.register == 0x43,
{
    Metric { register: 0x43, unit: UnitMillipascal }
}

/// Self assessment of sound measurement stability.
pub fn metric_sound_measurement_stability() -> (m: Metric<UnitSoundMeasurementStability>)
    ensures
        m.register == 0x44,
{
    Metric { register: 0x44, unit: UnitSoundMeasurementStability }
}

/// Combined read of the sound metrics (0x41 to 0x44).
pub fn metric_combined_sound_data() -> (m: Metric<UnitCombinedSoundData>)
    ensures
        m.register == 0x13,
{
    Metric { register: 0x13, unit: UnitCombinedSoundData }
}

/// Particle sensor duty cycle.
pub fn metric_particle_sensor_duty_cycle() -> (m: Metric<UnitPercent>)
    ensures
        m.register == 0x51,
{
    Metric { register: 0x51, unit: UnitPercent }
}

/// Particle concentration as measured by an external sensor.
pub fn metric_particle_concentration() -> (m: Metric<UnitRawParticleConcentration>)
    ensures
        m.register == 0x52,
{
    Metric { register: 0x52, unit: UnitRawParticleConcentration }
}

/// Self assessment of the particle sensor, if attached.
pub fn metric_particle_data_valid() -> (m: Metric<UnitParticleDataValidity>)
    ensures
        m.register == 0x53,
{
    Metric { register: 0x53, unit: UnitParticleDataValidity }
}

/// Combined read of the particle metrics (0x51 to 0x53).
pub fn metric_combined_particle_data() -> (m: Metric<UnitCombinedParticleData>)
    ensures
        m.register == 0x14,
{
    Metric { register: 0x14, unit: UnitCombinedParticleData }
}

/// All sensor data, with five block reads; air quality data is only valid in cycle mode.
pub fn metric_combined_all() -> (m: Metric<UnitCombinedData>)
    ensures
        m.register == 0x10,
{
    Metric { register: 0x10, unit: UnitCombinedData }
}

/// The all-domains read stops at its first failing block: once a block read
/// so far does not decode, the next step is the failure with the error of
/// the earliest such block, and no further block is read.
pub proof fn lemma_combined_read_stops_at_failure(
    metric: Metric<UnitCombinedData>,
    blocks: Seq<Seq<u8>>,
    k: int,
)
    requires
        blocks.len() <= metric.spec_reads().len(),
        blocks_answer(metric.spec_reads().take(blocks.len() as int), blocks),
        0 <= k < blocks.len(),
        spec_block_error(k, blocks[k]) is Some,
    ensures
        metric.spec_read_step(blocks) is Failed,
        metric.spec_read_step(blocks) == ReadStep::Failed(spec_first_block_error(blocks, 0)->Some_0),
{
    reveal_with_fuel(spec_first_block_error, 6);
}

} // verus!
