//! Units: the semantic value types of the sensor, each with its wire length,
//! its decoding rule and its name and symbol.
use vstd::prelude::*;

use crate::codec::{
    fixed_i8, fixed_u16, fixed_u8, read_u16_le, read_u32_le, spec_fixed_i8, spec_fixed_u16,
    spec_fixed_u8, spec_u16_le, spec_u32_le, FixedPoint,
};
use crate::error::{MetrifulError, Result};
use vstd::string::StringExecFns;

verus! {

/// A point in time: milliseconds since the Unix epoch, UTC.
#[derive(Debug, Clone, Copy, PartialEq, Eq, Structural)]
pub struct Timestamp {
    pub millis: i64,
}

impl Timestamp {
    /// The current system time.
    ///
    /// Relies on chrono's `Utc::now` and `DateTime::timestamp_millis`: the
    /// clock's reading, of which nothing is promised. `Utc::now` panics only
    /// if the system clock is set before the Unix epoch.
    #[verifier::external_body]
    pub(crate) fn now() -> (r: Timestamp) {
        Timestamp { millis: chrono::Utc::now().timestamp_millis() }
    }
}

/// One block read on the bus: `len` bytes from register `register`.
#[derive(Debug, Clone, Copy, PartialEq, Eq, Structural)]
pub struct BlockRead {
    pub register: u8,
    pub len: u8,
}

/// Whether `blocks` are answers of the right lengths to the block reads `reads`.
pub open spec fn blocks_answer(reads: Seq<BlockRead>, blocks: Seq<Seq<u8>>) -> bool {
    &&& blocks.len() == reads.len()
    &&& forall|i: int| 0 <= i < reads.len() ==> #[trigger] blocks[i].len() == reads[i].len
}

/// The single block read of `len` bytes at `register`.
pub fn single_block(register: u8, len: u8) -> (r: Vec<BlockRead>)
    ensures
        r@ == seq![BlockRead { register, len }],
{
    let r = vec![BlockRead { register, len }];
    assert(r@ =~= seq![BlockRead { register, len }]);
    r
}

/// The one answer to a single block read of `len` bytes.
fn only_block(blocks: &Vec<Vec<u8>>, len: u8) -> (r: &[u8])
    requires
        exists|register: u8| blocks_answer(seq![BlockRead { register, len }], blocks.deep_view()),
    ensures
        r@ == blocks.deep_view()[0],
        r@.len() == len,
{
    proof {
        let register = choose|register: u8|
            blocks_answer(seq![BlockRead { register, len }], blocks.deep_view());
        assert(blocks.deep_view()[0].len() == seq![BlockRead { register, len }][0].len);
    }
    let r = blocks[0].as_slice();
    assert(r@ =~= blocks.deep_view()[0]);
    r
}

/// A semantic value type of the sensor: its name and symbol, the number of
/// bytes of its register representation, and how those bytes decode.
pub trait MetrifulUnit: Sized + Copy {
    /// The native datatype of this unit's values.
    type Output;

    /// The human-readable name of the unit.
    spec fn spec_name() -> Seq<char>;

    /// The human-readable symbol of the unit, if it has one.
    spec fn spec_symbol() -> Option<Seq<char>>;

    /// The number of bytes of the unit's register representation (0 for an
    /// aggregate of several registers).
    spec fn spec_len() -> nat;

    /// The value that `bytes` encode, stamped with `time` where the value
    /// holds stamped readings.
    spec fn spec_decode(bytes: Seq<u8>, time: Timestamp) -> Result<Self::Output>;

    /// The block reads that fetch a value of this unit from `register`.
    spec fn spec_reads(register: u8) -> Seq<BlockRead>;

    /// The value that the answers to those block reads encode.
    spec fn spec_read(blocks: Seq<Seq<u8>>, time: Timestamp) -> Result<Self::Output>;

    /// The decode error that the answers `blocks` to the first of those block
    /// reads already decide, if any: a read stops there.
    spec fn spec_prefix_error(blocks: Seq<Seq<u8>>) -> Option<MetrifulError>;

    /// The human-readable name of the unit.
    fn name() -> (r: &'static str)
        ensures
            r@ == Self::spec_name(),
    ;

    /// The human-readable symbol of the unit, if it has one.
    fn symbol() -> (r: Option<&'static str>)
        ensures
            r is Some <==> Self::spec_symbol() is Some,
            r matches Some(s) ==> Self::spec_symbol() == Some(s@),
    ;

    /// Length of the register representation in bytes.
    fn len() -> (r: u8)
        ensures
            r as nat == Self::spec_len(),
    ;

    /// Decodes a value from exactly `len()` bytes.
    fn from_bytes(bytes: &[u8], time: Timestamp) -> (r: Result<Self::Output>)
        requires
            bytes@.len() == Self::spec_len(),
        ensures
            r == Self::spec_decode(bytes@, time),
    ;

    /// The block reads that fetch a value of this unit from `register`.
    fn reads(register: u8) -> (r: Vec<BlockRead>)
        ensures
            r@ == Self::spec_reads(register),
    ;

    /// The decode error that the answers to the first block reads already
    /// decide, if any.
    fn prefix_error(blocks: &Vec<Vec<u8>>) -> (r: Option<MetrifulError>)
        requires
            exists|register: u8|
                blocks.len() <= Self::spec_reads(register).len() && blocks_answer(
                    Self::spec_reads(register).take(blocks.len() as int),
                    blocks.deep_view(),
                ),
        ensures
            r == Self::spec_prefix_error(blocks.deep_view()),
    ;

    /// Decodes a value from the answers to the block reads of `reads`.
    fn read(blocks: &Vec<Vec<u8>>, time: Timestamp) -> (r: Result<Self::Output>)
        requires
            exists|register: u8| blocks_answer(Self::spec_reads(register), blocks.deep_view()),
        ensures
            r == Self::spec_read(blocks.deep_view(), time),
    ;
}

/// A rendered value followed by a space and the unit's symbol, or the bare
/// value when the unit has no symbol.
pub open spec fn spec_format_value(value: Seq<char>, symbol: Option<Seq<char>>) -> Seq<char> {
    match symbol {
        Some(s) => value + " "@ + s,
        None => value,
    }
}

/// Formats a rendered value of unit `U` with the unit's symbol.
pub fn format_value<U: MetrifulUnit>(value: &str) -> (r: String)
    ensures
        r@ == spec_format_value(value@, U::spec_symbol()),
{
    let mut r = String::from_str(value);
    match U::symbol() {
        Some(symbol) => {
            r.append(" ");
            r.append(symbol);
        },
        None => {},
    }
    r
}

/// A decoded value together with its unit and the time it was read.
///
/// The combined units hold structs of nested `UnitValue`s in `value`.
pub struct UnitValue<U: MetrifulUnit> {
    /// The unit of the value, with its name and symbol.
    pub unit: U,
    /// The value in its native datatype.
    pub value: U::Output,
    /// When the value was read.
    pub time: Timestamp,
}

/// The reading of unit `unit` with value `value`, read at `time`.
pub open spec fn stamped<U: MetrifulUnit>(unit: U, value: U::Output, time: Timestamp) -> UnitValue<U> {
    UnitValue { unit, value, time }
}

/// Accuracy of the air quality index.
#[derive(Debug, Clone, Copy, PartialEq, Eq, Structural, PartialOrd, Ord)]
pub enum AQIAccuracy {
    Invalid,
    Low,
    Medium,
    High,
}

impl AQIAccuracy {
    /// The byte value of this accuracy.
    pub open spec fn spec_uint(self) -> u8 {
        match self {
            AQIAccuracy::Invalid => 0,
            AQIAccuracy::Low => 1,
            AQIAccuracy::Medium => 2,
            AQIAccuracy::High => 3,
        }
    }

    /// The accuracy that a byte stands for, or the error for an unknown one.
    pub open spec fn spec_from_byte(byte: u8) -> Result<AQIAccuracy> {
        if byte == 0 {
            Ok(AQIAccuracy::Invalid)
        } else if byte == 1 {
            Ok(AQIAccuracy::Low)
        } else if byte == 2 {
            Ok(AQIAccuracy::Medium)
        } else if byte == 3 {
            Ok(AQIAccuracy::High)
        } else {
            Err(MetrifulError::InvalidAQIAccuracy(byte))
        }
    }

    /// Decodes an accuracy byte: 0 to 3, anything else is an error.
    pub fn from_byte(byte: u8) -> (r: Result<AQIAccuracy>)
        ensures
            r == Self::spec_from_byte(byte),
    {
        match byte {
            0 => Ok(AQIAccuracy::Invalid),
            1 => Ok(AQIAccuracy::Low),
            2 => Ok(AQIAccuracy::Medium),
            3 => Ok(AQIAccuracy::High),
            _ => Err(MetrifulError::InvalidAQIAccuracy(byte)),
        }
    }

    /// Converts this accuracy to its byte value, 0 to 3.
    pub fn to_uint(&self) -> (r: u8)
        ensures
            r == self.spec_uint(),
            Self::spec_from_byte(r) == Ok::<AQIAccuracy, MetrifulError>(*self),
    {
        match self {
            AQIAccuracy::Invalid => 0,
            AQIAccuracy::Low => 1,
            AQIAccuracy::Medium => 2,
            AQIAccuracy::High => 3,
        }
    }

    /// The lower-case name of this accuracy.
    pub fn as_str(&self) -> (r: &'static str)
        ensures
            r@ == (match *self {
                AQIAccuracy::Invalid => "invalid"@,
                AQIAccuracy::Low => "low"@,
                AQIAccuracy::Medium => "medium"@,
                AQIAccuracy::High => "high"@,
            }),
    {
        match self {
            AQIAccuracy::Invalid => "invalid",
            AQIAccuracy::Low => "low",
            AQIAccuracy::Medium => "medium",
            AQIAccuracy::High => "high",
        }
    }
}

/// Self assessment of the sound measurement.
#[derive(Debug, Clone, Copy, PartialEq, Eq, Structural, PartialOrd, Ord)]
pub enum SoundMeasurementStability {
    /// Microphone initialization has finished.
    Stable,
    /// Microphone initialization still ongoing.
    Unstable,
}

impl SoundMeasurementStability {
    /// The stability that a byte stands for: 0 is unstable, 1 stable, and
    /// anything else is an error.
    pub open spec fn spec_from_byte(byte: u8) -> Result<SoundMeasurementStability> {
        if byte == 0 {
            Ok(SoundMeasurementStability::Unstable)
        } else if byte == 1 {
            Ok(SoundMeasurementStability::Stable)
        } else {
            Err(MetrifulError::InvalidSoundMeasurementStability(byte))
        }
    }

    /// Decodes a stability byte: 0 or 1, anything else is an error.
    pub fn from_byte(byte: u8) -> (r: Result<SoundMeasurementStability>)
        ensures
            r == Self::spec_from_byte(byte),
    {
        match byte {
            0 => Ok(SoundMeasurementStability::Unstable),
            1 => Ok(SoundMeasurementStability::Stable),
            _ => Err(MetrifulError::InvalidSoundMeasurementStability(byte)),
        }
    }

    /// Converts this value to an int: 0 (unstable), 1 (stable).
    pub fn to_uint(&self) -> (r: u8)
        ensures
            r == (if *self == SoundMeasurementStability::Stable { 1u8 } else { 0u8 }),
            Self::spec_from_byte(r) == Ok::<SoundMeasurementStability, MetrifulError>(*self),
    {
        match self {
            SoundMeasurementStability::Stable => 1,
            SoundMeasurementStability::Unstable => 0,
        }
    }

    /// The lower-case name of this stability.
    pub fn as_str(&self) -> (r: &'static str)
        ensures
            r@ == (if *self == SoundMeasurementStability::Stable { "stable"@ } else { "unstable"@ }),
    {
        match self {
            SoundMeasurementStability::Stable => "stable",
            SoundMeasurementStability::Unstable => "unstable",
        }
    }
}

/// Self assessment of the particle sensor, if one is attached.
#[derive(Debug, Clone, Copy, PartialEq, Eq, Structural, PartialOrd, Ord)]
pub enum ParticleDataValidity {
    /// The particle sensor is still initializing (or is not enabled).
    Initializing,
    /// The particle sensor data is likely to have settled.
    Settled,
}

impl ParticleDataValidity {
    /// The validity that a byte stands for, or the error for an unknown one.
    pub open spec fn spec_from_byte(byte: u8) -> Result<ParticleDataValidity> {
        if byte == 0 {
            Ok(ParticleDataValidity::Initializing)
        } else if byte == 1 {
            Ok(ParticleDataValidity::Settled)
        } else {
            Err(MetrifulError::InvalidParticleDataValidity(byte))
        }
    }

    /// Decodes a validity byte: 0 or 1, anything else is an error.
    pub fn from_byte(byte: u8) -> (r: Result<ParticleDataValidity>)
        ensures
            r == Self::spec_from_byte(byte),
    {
        match byte {
            0 => Ok(ParticleDataValidity::Initializing),
            1 => Ok(ParticleDataValidity::Settled),
            _ => Err(MetrifulError::InvalidParticleDataValidity(byte)),
        }
    }

    /// The lower-case name of this validity.
    pub fn as_str(&self) -> (r: &'static str)
        ensures
            r@ == (if *self == ParticleDataValidity::Settled { "settled"@ } else { "initializing"@ }),
    {
        match self {
            ParticleDataValidity::Initializing => "initializing",
            ParticleDataValidity::Settled => "settled",
        }
    }
}

/// The six sound pressure level bands, as decoded from their integer parts
/// `b[0..6]` and fraction bytes `b[6..12]`.
pub open spec fn spec_bands(b: Seq<u8>) -> Seq<FixedPoint> {
    Seq::new(6, |i: int| spec_fixed_u8(b[i], b[i + 6]))
}

/// The array of the six bands that `b` encodes.
pub open spec fn spec_band_array(b: Seq<u8>) -> [FixedPoint; 6] {
    choose|a: [FixedPoint; 6]| a@ == spec_bands(b)
}

/// Sound pressure level by frequency band, in dB.
#[derive(Debug, Clone, Copy)]
pub struct SPLFrequencyBands(pub [FixedPoint; 6]);

impl SPLFrequencyBands {
    /// Decodes six integer parts followed by their six fraction bytes.
    pub fn decode(bytes: &[u8]) -> (r: SPLFrequencyBands)
        requires
            bytes@.len() == 12,
        ensures
            r.0@ == spec_bands(bytes@),
            r.0 == spec_band_array(bytes@),
    {
        let bands: [FixedPoint; 6] = [
            fixed_pair(bytes, 0),
            fixed_pair(bytes, 1),
            fixed_pair(bytes, 2),
            fixed_pair(bytes, 3),
            fixed_pair(bytes, 4),
            fixed_pair(bytes, 5),
        ];
        assert(bands@ =~= spec_bands(bytes@));
        proof {
            let c = spec_band_array(bytes@);
            assert(c@ == spec_bands(bytes@));
            broadcast use vstd::array::axiom_array_ext_equal;
            assert(c@ =~= bands@);
        }
        SPLFrequencyBands(bands)
    }
}

/// Decodes the band `i`: its integer part at `i`, its fraction at `i + 6`.
fn fixed_pair(bytes: &[u8], i: usize) -> (r: FixedPoint)
    requires
        bytes@.len() == 12,
        i < 6,
    ensures
        r == spec_fixed_u8(bytes@[i as int], bytes@[i + 6]),
{
    FixedPoint::from_parts(bytes[i] as i32, bytes[i + 6])
}

/// Raw particle concentration from the attached particle sensor. Which of
/// the two readings applies depends on the sensor attached; both are set.
#[derive(Debug, Clone, Copy)]
pub struct RawParticleConcentration {
    /// 16-bit integer with a fractional part; micrograms per cubic meter.
    pub sds011_value: FixedPoint,
    /// 16-bit integer; particles per liter.
    pub ppd42_value: u16,
}

/// Two concentrations are equal when their particle counts are: the two
/// readings of one measurement should agree.
impl PartialEq for RawParticleConcentration {
    fn eq(&self, other: &RawParticleConcentration) -> (r: bool) {
        self.ppd42_value == other.ppd42_value
    }
}

impl vstd::std_specs::cmp::PartialEqSpecImpl for RawParticleConcentration {
    open spec fn obeys_eq_spec() -> bool {
        true
    }

    open spec fn eq_spec(&self, other: &RawParticleConcentration) -> bool {
        self.ppd42_value == other.ppd42_value
    }
}

impl Eq for RawParticleConcentration {
}

impl RawParticleConcentration {
    /// The concentration that three bytes encode.
    pub open spec fn spec_decode(b: Seq<u8>) -> RawParticleConcentration {
        RawParticleConcentration { sds011_value: spec_fixed_u16(b, 0), ppd42_value: spec_u16_le(b, 0) }
    }

    /// Decodes a 16-bit integer part and a fraction byte.
    pub fn decode(bytes: &[u8]) -> (r: RawParticleConcentration)
        requires
            bytes@.len() == 3,
        ensures
            r == Self::spec_decode(bytes@),
    {
        RawParticleConcentration { sds011_value: fixed_u16(bytes, 0), ppd42_value: read_u16_le(bytes, 0) }
    }
}

/// Unit of readings decoded as [`FixedPoint`]: degrees Celsius.
#[derive(Debug, Clone, Copy, Default)]
pub struct UnitDegreesCelsius;

impl MetrifulUnit for UnitDegreesCelsius {
    type Output = FixedPoint;

    open spec fn spec_name() -> Seq<char> {
        "degrees Celsius"@
    }

    open spec fn spec_symbol() -> Option<Seq<char>> {
        Some("℃"@)
    }

    open spec fn spec_len() -> nat {
        2
    }

    open spec fn spec_decode(bytes: Seq<u8>, time: Timestamp) -> Result<FixedPoint> {
        Ok(spec_fixed_i8(bytes[0], bytes[1]))
    }

    open spec fn spec_reads(register: u8) -> Seq<BlockRead> {
        seq![BlockRead { register, len: 2 }]
    }

    open spec fn spec_read(blocks: Seq<Seq<u8>>, time: Timestamp) -> Result<FixedPoint> {
        Self::spec_decode(blocks[0], time)
    }

    open spec fn spec_prefix_error(blocks: Seq<Seq<u8>>) -> Option<MetrifulError> {
        None
    }

    fn name() -> (r: &'static str) {
        "degrees Celsius"
    }

    fn symbol() -> (r: Option<&'static str>) {
        Some("℃")
    }

    fn len() -> (r: u8) {
        2
    }

    fn from_bytes(bytes: &[u8], time: Timestamp) -> (r: Result<FixedPoint>) {
        Ok(fixed_i8(bytes, 0))
    }

    fn reads(register: u8) -> (r: Vec<BlockRead>) {
        single_block(register, 2)
    }

    fn read(blocks: &Vec<Vec<u8>>, time: Timestamp) -> (r: Result<FixedPoint>) {
        Self::from_bytes(only_block(blocks, Self::len()), time)
    }

    fn prefix_error(blocks: &Vec<Vec<u8>>) -> (r: Option<MetrifulError>) {
        None
    }
}

/// Unit of readings decoded as [`u32`]: pascals.
#[derive(Debug, Clone, Copy, Default)]
pub struct UnitPascals;

impl MetrifulUnit for UnitPascals {
    type Output = u32;

    open spec fn spec_name() -> Seq<char> {
        "pascals"@
    }

    open spec fn spec_symbol() -> Option<Seq<char>> {
        Some("Pa"@)
    }

    open spec fn spec_len() -> nat {
        4
    }

    open spec fn spec_decode(bytes: Seq<u8>, time: Timestamp) -> Result<u32> {
        Ok(spec_u32_le(bytes, 0))
    }

    open spec fn spec_reads(register: u8) -> Seq<BlockRead> {
        seq![BlockRead { register, len: 4 }]
    }

    open spec fn spec_read(blocks: Seq<Seq<u8>>, time: Timestamp) -> Result<u32> {
        Self::spec_decode(blocks[0], time)
    }

    open spec fn spec_prefix_error(blocks: Seq<Seq<u8>>) -> Option<MetrifulError> {
        None
    }

    fn name() -> (r: &'static str) {
        "pascals"
    }

    fn symbol() -> (r: Option<&'static str>) {
        Some("Pa")
    }

    fn len() -> (r: u8) {
        4
    }

    fn from_bytes(bytes: &[u8], time: Timestamp) -> (r: Result<u32>) {
        Ok(read_u32_le(bytes, 0))
    }

    fn reads(register: u8) -> (r: Vec<BlockRead>) {
        single_block(register, 4)
    }

    fn read(blocks: &Vec<Vec<u8>>, time: Timestamp) -> (r: Result<u32>) {
        Self::from_bytes(only_block(blocks, Self::len()), time)
    }

    fn prefix_error(blocks: &Vec<Vec<u8>>) -> (r: Option<MetrifulError>) {
        None
    }
}

/// Unit of readings decoded as [`FixedPoint`]: % relative humidity.
#[derive(Debug, Clone, Copy, Default)]
pub struct UnitRelativeHumidity;

impl MetrifulUnit for UnitRelativeHumidity {
    type Output = FixedPoint;

    open spec fn spec_name() -> Seq<char> {
        "% relative humidity"@
    }

    open spec fn spec_symbol() -> Option<Seq<char>> {
        Some("% RH"@)
    }

    open spec fn spec_len() -> nat {
        2
    }

    open spec fn spec_decode(bytes: Seq<u8>, time: Timestamp) -> Result<FixedPoint> {
        Ok(spec_fixed_u8(bytes[0], bytes[1]))
    }

    open spec fn spec_reads(register: u8) -> Seq<BlockRead> {
        seq![BlockRead { register, len: 2 }]
    }

    open spec fn spec_read(blocks: Seq<Seq<u8>>, time: Timestamp) -> Result<FixedPoint> {
        Self::spec_decode(blocks[0], time)
    }

    open spec fn spec_prefix_error(blocks: Seq<Seq<u8>>) -> Option<MetrifulError> {
        None
    }

    fn name() -> (r: &'static str) {
        "% relative humidity"
    }

    fn symbol() -> (r: Option<&'static str>) {
        Some("% RH")
    }

    fn len() -> (r: u8) {
        2
    }

    fn from_bytes(bytes: &[u8], time: Timestamp) -> (r: Result<FixedPoint>) {
        Ok(fixed_u8(bytes, 0))
    }

    fn reads(register: u8) -> (r: Vec<BlockRead>) {
        single_block(register, 2)
    }

    fn read(blocks: &Vec<Vec<u8>>, time: Timestamp) -> (r: Result<FixedPoint>) {
        Self::from_bytes(only_block(blocks, Self::len()), time)
    }

    fn prefix_error(blocks: &Vec<Vec<u8>>) -> (r: Option<MetrifulError>) {
        None
    }
}

/// Unit of readings decoded as [`u32`]: ohms.
#[derive(Debug, Clone, Copy, Default)]
pub struct UnitResistance;

impl MetrifulUnit for UnitResistance {
    type Output = u32;

    open spec fn spec_name() -> Seq<char> {
        "ohms"@
    }

    open spec fn spec_symbol() -> Option<Seq<char>> {
        Some("Ω"@)
    }

    open spec fn spec_len() -> nat {
        4
    }

    open spec fn spec_decode(bytes: Seq<u8>, time: Timestamp) -> Result<u32> {
        Ok(spec_u32_le(bytes, 0))
    }

    open spec fn spec_reads(register: u8) -> Seq<BlockRead> {
        seq![BlockRead { register, len: 4 }]
    }

    open spec fn spec_read(blocks: Seq<Seq<u8>>, time: Timestamp) -> Result<u32> {
        Self::spec_decode(blocks[0], time)
    }

    open spec fn spec_prefix_error(blocks: Seq<Seq<u8>>) -> Option<MetrifulError> {
        None
    }

    fn name() -> (r: &'static str) {
        "ohms"
    }

    fn symbol() -> (r: Option<&'static str>) {
        Some("Ω")
    }

    fn len() -> (r: u8) {
        4
    }

    fn from_bytes(bytes: &[u8], time: Timestamp) -> (r: Result<u32>) {
        Ok(read_u32_le(bytes, 0))
    }

    fn reads(register: u8) -> (r: Vec<BlockRead>) {
        single_block(register, 4)
    }

    fn read(blocks: &Vec<Vec<u8>>, time: Timestamp) -> (r: Result<u32>) {
        Self::from_bytes(only_block(blocks, Self::len()), time)
    }

    fn prefix_error(blocks: &Vec<Vec<u8>>) -> (r: Option<MetrifulError>) {
        None
    }
}

/// Unit of readings decoded as [`FixedPoint`]: AQI.
#[derive(Debug, Clone, Copy, Default)]
pub struct UnitAirQualityIndex;

impl MetrifulUnit for UnitAirQualityIndex {
    type Output = FixedPoint;

    open spec fn spec_name() -> Seq<char> {
        "AQI"@
    }

    open spec fn spec_symbol() -> Option<Seq<char>> {
        None
    }

    open spec fn spec_len() -> nat {
        3
    }

    open spec fn spec_decode(bytes: Seq<u8>, time: Timestamp) -> Result<FixedPoint> {
        Ok(spec_fixed_u16(bytes, 0))
    }

    open spec fn spec_reads(register: u8) -> Seq<BlockRead> {
        seq![BlockRead { register, len: 3 }]
    }

    open spec fn spec_read(blocks: Seq<Seq<u8>>, time: Timestamp) -> Result<FixedPoint> {
        Self::spec_decode(blocks[0], time)
    }

    open spec fn spec_prefix_error(blocks: Seq<Seq<u8>>) -> Option<MetrifulError> {
        None
    }

    fn name() -> (r: &'static str) {
        "AQI"
    }

    fn symbol() -> (r: Option<&'static str>) {
        None
    }

    fn len() -> (r: u8) {
        3
    }

    fn from_bytes(bytes: &[u8], time: Timestamp) -> (r: Result<FixedPoint>) {
        Ok(fixed_u16(bytes, 0))
    }

    fn reads(register: u8) -> (r: Vec<BlockRead>) {
        single_block(register, 3)
    }

    fn read(blocks: &Vec<Vec<u8>>, time: Timestamp) -> (r: Result<FixedPoint>) {
        Self::from_bytes(only_block(blocks, Self::len()), time)
    }

    fn prefix_error(blocks: &Vec<Vec<u8>>) -> (r: Option<MetrifulError>) {
        None
    }
}

/// Unit of readings decoded as [`FixedPoint`]: parts per million.
#[derive(Debug, Clone, Copy, Default)]
pub struct UnitPartsPerMillion;

impl MetrifulUnit for UnitPartsPerMillion {
    type Output = FixedPoint;

    open spec fn spec_name() -> Seq<char> {
        "parts per million"@
    }

    open spec fn spec_symbol() -> Option<Seq<char>> {
        Some("ppm"@)
    }

    open spec fn spec_len() -> nat {
        3
    }

    open spec fn spec_decode(bytes: Seq<u8>, time: Timestamp) -> Result<FixedPoint> {
        Ok(spec_fixed_u16(bytes, 0))
    }

    open spec fn spec_reads(register: u8) -> Seq<BlockRead> {
        seq![BlockRead { register, len: 3 }]
    }

    open spec fn spec_read(blocks: Seq<Seq<u8>>, time: Timestamp) -> Result<FixedPoint> {
        Self::spec_decode(blocks[0], time)
    }

    open spec fn spec_prefix_error(blocks: Seq<Seq<u8>>) -> Option<MetrifulError> {
        None
    }

    fn name() -> (r: &'static str) {
        "parts per million"
    }

    fn symbol() -> (r: Option<&'static str>) {
        Some("ppm")
    }

    fn len() -> (r: u8) {
        3
    }

    fn from_bytes(bytes: &[u8], time: Timestamp) -> (r: Result<FixedPoint>) {
        Ok(fixed_u16(bytes, 0))
    }

    fn reads(register: u8) -> (r: Vec<BlockRead>) {
        single_block(register, 3)
    }

    fn read(blocks: &Vec<Vec<u8>>, time: Timestamp) -> (r: Result<FixedPoint>) {
        Self::from_bytes(only_block(blocks, Self::len()), time)
    }

    fn prefix_error(blocks: &Vec<Vec<u8>>) -> (r: Option<MetrifulError>) {
        None
    }
}

/// Unit of readings decoded as [`AQIAccuracy`]: AQI accuracy.
#[derive(Debug, Clone, Copy, Default)]
pub struct UnitAQIAccuracy;

impl MetrifulUnit for UnitAQIAccuracy {
    type Output = AQIAccuracy;

    open spec fn spec_name() -> Seq<char> {
        "AQI accuracy"@
    }

    open spec fn spec_symbol() -> Option<Seq<char>> {
        None
    }

    open spec fn spec_len() -> nat {
        1
    }

    open spec fn spec_decode(bytes: Seq<u8>, time: Timestamp) -> Result<AQIAccuracy> {
        AQIAccuracy::spec_from_byte(bytes[0])
    }

    open spec fn spec_reads(register: u8) -> Seq<BlockRead> {
        seq![BlockRead { register, len: 1 }]
    }

    open spec fn spec_read(blocks: Seq<Seq<u8>>, time: Timestamp) -> Result<AQIAccuracy> {
        Self::spec_decode(blocks[0], time)
    }

    open spec fn spec_prefix_error(blocks: Seq<Seq<u8>>) -> Option<MetrifulError> {
        None
    }

    fn name() -> (r: &'static str) {
        "AQI accuracy"
    }

    fn symbol() -> (r: Option<&'static str>) {
        None
    }

    fn len() -> (r: u8) {
        1
    }

    fn from_bytes(bytes: &[u8], time: Timestamp) -> (r: Result<AQIAccuracy>) {
        AQIAccuracy::from_byte(bytes[0])
    }

    fn reads(register: u8) -> (r: Vec<BlockRead>) {
        single_block(register, 1)
    }

    fn read(blocks: &Vec<Vec<u8>>, time: Timestamp) -> (r: Result<AQIAccuracy>) {
        Self::from_bytes(only_block(blocks, Self::len()), time)
    }

    fn prefix_error(blocks: &Vec<Vec<u8>>) -> (r: Option<MetrifulError>) {
        None
    }
}

/// Unit of readings decoded as [`FixedPoint`]: lux.
#[derive(Debug, Clone, Copy, Default)]
pub struct UnitIlluminance;

impl MetrifulUnit for UnitIlluminance {
    type Output = FixedPoint;

    open spec fn spec_name() -> Seq<char> {
        "lux"@
    }

    open spec fn spec_symbol() -> Option<Seq<char>> {
        Some("lx"@)
    }

    open spec fn spec_len() -> nat {
        3
    }

    open spec fn spec_decode(bytes: Seq<u8>, time: Timestamp) -> Result<FixedPoint> {
        Ok(spec_fixed_u16(bytes, 0))
    }

    open spec fn spec_reads(register: u8) -> Seq<BlockRead> {
        seq![BlockRead { register, len: 3 }]
    }

    open spec fn spec_read(blocks: Seq<Seq<u8>>, time: Timestamp) -> Result<FixedPoint> {
        Self::spec_decode(blocks[0], time)
    }

    open spec fn spec_prefix_error(blocks: Seq<Seq<u8>>) -> Option<MetrifulError> {
        None
    }

    fn name() -> (r: &'static str) {
        "lux"
    }

    fn symbol() -> (r: Option<&'static str>) {
        Some("lx")
    }

    fn len() -> (r: u8) {
        3
    }

    fn from_bytes(bytes: &[u8], time: Timestamp) -> (r: Result<FixedPoint>) {
        Ok(fixed_u16(bytes, 0))
    }

    fn reads(register: u8) -> (r: Vec<BlockRead>) {
        single_block(register, 3)
    }

    fn read(blocks: &Vec<Vec<u8>>, time: Timestamp) -> (r: Result<FixedPoint>) {
        Self::from_bytes(only_block(blocks, Self::len()), time)
    }

    fn prefix_error(blocks: &Vec<Vec<u8>>) -> (r: Option<MetrifulError>) {
        None
    }
}

/// Unit of readings decoded as [`u16`]: white level.
#[derive(Debug, Clone, Copy, Default)]
pub struct UnitWhiteLevel;

impl MetrifulUnit for UnitWhiteLevel {
    type Output = u16;

    open spec fn spec_name() -> Seq<char> {
        "white level"@
    }

    open spec fn spec_symbol() -> Option<Seq<char>> {
        None
    }

    open spec fn spec_len() -> nat {
        2
    }

    open spec fn spec_decode(bytes: Seq<u8>, time: Timestamp) -> Result<u16> {
        Ok(spec_u16_le(bytes, 0))
    }

    open spec fn spec_reads(register: u8) -> Seq<BlockRead> {
        seq![BlockRead { register, len: 2 }]
    }

    open spec fn spec_read(blocks: Seq<Seq<u8>>, time: Timestamp) -> Result<u16> {
        Self::spec_decode(blocks[0], time)
    }

    open spec fn spec_prefix_error(blocks: Seq<Seq<u8>>) -> Option<MetrifulError> {
        None
    }

    fn name() -> (r: &'static str) {
        "white level"
    }

    fn symbol() -> (r: Option<&'static str>) {
        None
    }

    fn len() -> (r: u8) {
        2
    }

    fn from_bytes(bytes: &[u8], time: Timestamp) -> (r: Result<u16>) {
        Ok(read_u16_le(bytes, 0))
    }

    fn reads(register: u8) -> (r: Vec<BlockRead>) {
        single_block(register, 2)
    }

    fn read(blocks: &Vec<Vec<u8>>, time: Timestamp) -> (r: Result<u16>) {
        Self::from_bytes(only_block(blocks, Self::len()), time)
    }

    fn prefix_error(blocks: &Vec<Vec<u8>>) -> (r: Option<MetrifulError>) {
        None
    }
}

/// Unit of readings decoded as [`FixedPoint`]: A-weighted sound pressure level.
#[derive(Debug, Clone, Copy, Default)]
pub struct UnitAWeightedSPL;

impl MetrifulUnit for UnitAWeightedSPL {
    type Output = FixedPoint;

    open spec fn spec_name() -> Seq<char> {
        "A-weighted sound pressure level"@
    }

    open spec fn spec_symbol() -> Option<Seq<char>> {
        Some("dBa"@)
    }

    open spec fn spec_len() -> nat {
        2
    }

    open spec fn spec_decode(bytes: Seq<u8>, time: Timestamp) -> Result<FixedPoint> {
        Ok(spec_fixed_u8(bytes[0], bytes[1]))
    }

    open spec fn spec_reads(register: u8) -> Seq<BlockRead> {
        seq![BlockRead { register, len: 2 }]
    }

    open spec fn spec_read(blocks: Seq<Seq<u8>>, time: Timestamp) -> Result<FixedPoint> {
        Self::spec_decode(blocks[0], time)
    }

    open spec fn spec_prefix_error(blocks: Seq<Seq<u8>>) -> Option<MetrifulError> {
        None
    }

    fn name() -> (r: &'static str) {
        "A-weighted sound pressure level"
    }

    fn symbol() -> (r: Option<&'static str>) {
        Some("dBa")
    }

    fn len() -> (r: u8) {
        2
    }

    fn from_bytes(bytes: &[u8], time: Timestamp) -> (r: Result<FixedPoint>) {
        Ok(fixed_u8(bytes, 0))
    }

    fn reads(register: u8) -> (r: Vec<BlockRead>) {
        single_block(register, 2)
    }

    fn read(blocks: &Vec<Vec<u8>>, time: Timestamp) -> (r: Result<FixedPoint>) {
        Self::from_bytes(only_block(blocks, Self::len()), time)
    }

    fn prefix_error(blocks: &Vec<Vec<u8>>) -> (r: Option<MetrifulError>) {
        None
    }
}

/// Unit of readings decoded as [`SPLFrequencyBands`]: sound pressure level frequency bands.
#[derive(Debug, Clone, Copy, Default)]
pub struct UnitSPLFrequencyBands;

impl MetrifulUnit for UnitSPLFrequencyBands {
    type Output = SPLFrequencyBands;

    open spec fn spec_name() -> Seq<char> {
        "sound pressure level frequency bands"@
    }

    open spec fn spec_symbol() -> Option<Seq<char>> {
        None
    }

    open spec fn spec_len() -> nat {
        12
    }

    open spec fn spec_decode(bytes: Seq<u8>, time: Timestamp) -> Result<SPLFrequencyBands> {
        Ok(SPLFrequencyBands(spec_band_array(bytes)))
    }

    open spec fn spec_reads(register: u8) -> Seq<BlockRead> {
        seq![BlockRead { register, len: 12 }]
    }

    open spec fn spec_read(blocks: Seq<Seq<u8>>, time: Timestamp) -> Result<SPLFrequencyBands> {
        Self::spec_decode(blocks[0], time)
    }

    open spec fn spec_prefix_error(blocks: Seq<Seq<u8>>) -> Option<MetrifulError> {
        None
    }

    fn name() -> (r: &'static str) {
        "sound pressure level frequency bands"
    }

    fn symbol() -> (r: Option<&'static str>) {
        None
    }

    fn len() -> (r: u8) {
        12
    }

    fn from_bytes(bytes: &[u8], time: Timestamp) -> (r: Result<SPLFrequencyBands>) {
        Ok(SPLFrequencyBands::decode(bytes))
    }

    fn reads(register: u8) -> (r: Vec<BlockRead>) {
        single_block(register, 12)
    }

    fn read(blocks: &Vec<Vec<u8>>, time: Timestamp) -> (r: Result<SPLFrequencyBands>) {
        Self::from_bytes(only_block(blocks, Self::len()), time)
    }

    fn prefix_error(blocks: &Vec<Vec<u8>>) -> (r: Option<MetrifulError>) {
        None
    }
}

/// Unit of readings decoded as [`FixedPoint`]: millipascals.
#[derive(Debug, Clone, Copy, Default)]
pub struct UnitMillipascal;

impl MetrifulUnit for UnitMillipascal {
    type Output = FixedPoint;

    open spec fn spec_name() -> Seq<char> {
        "millipascals"@
    }

    open spec fn spec_symbol() -> Option<Seq<char>> {
        Some("mPa"@)
    }

    open spec fn spec_len() -> nat {
        3
    }

    open spec fn spec_decode(bytes: Seq<u8>, time: Timestamp) -> Result<FixedPoint> {
        Ok(spec_fixed_u16(bytes, 0))
    }

    open spec fn spec_reads(register: u8) -> Seq<BlockRead> {
        seq![BlockRead { register, len: 3 }]
    }

    open spec fn spec_read(blocks: Seq<Seq<u8>>, time: Timestamp) -> Result<FixedPoint> {
        Self::spec_decode(blocks[0], time)
    }

    open spec fn spec_prefix_error(blocks: Seq<Seq<u8>>) -> Option<MetrifulError> {
        None
    }

    fn name() -> (r: &'static str) {
        "millipascals"
    }

    fn symbol() -> (r: Option<&'static str>) {
        Some("mPa")
    }

    fn len() -> (r: u8) {
        3
    }

    fn from_bytes(bytes: &[u8], time: Timestamp) -> (r: Result<FixedPoint>) {
        Ok(fixed_u16(bytes, 0))
    }

    fn reads(register: u8) -> (r: Vec<BlockRead>) {
        single_block(register, 3)
    }

    fn read(blocks: &Vec<Vec<u8>>, time: Timestamp) -> (r: Result<FixedPoint>) {
        Self::from_bytes(only_block(blocks, Self::len()), time)
    }

    fn prefix_error(blocks: &Vec<Vec<u8>>) -> (r: Option<MetrifulError>) {
        None
    }
}

/// Unit of readings decoded as [`SoundMeasurementStability`]: sound measurement stability.
#[derive(Debug, Clone, Copy, Default)]
pub struct UnitSoundMeasurementStability;

impl MetrifulUnit for UnitSoundMeasurementStability {
    type Output = SoundMeasurementStability;

    open spec fn spec_name() -> Seq<char> {
        "sound measurement stability"@
    }

    open spec fn spec_symbol() -> Option<Seq<char>> {
        None
    }

    open spec fn spec_len() -> nat {
        1
    }

    open spec fn spec_decode(bytes: Seq<u8>, time: Timestamp) -> Result<SoundMeasurementStability> {
        SoundMeasurementStability::spec_from_byte(bytes[0])
    }

    open spec fn spec_reads(register: u8) -> Seq<BlockRead> {
        seq![BlockRead { register, len: 1 }]
    }

    open spec fn spec_read(blocks: Seq<Seq<u8>>, time: Timestamp) -> Result<SoundMeasurementStability> {
        Self::spec_decode(blocks[0], time)
    }

    open spec fn spec_prefix_error(blocks: Seq<Seq<u8>>) -> Option<MetrifulError> {
        None
    }

    fn name() -> (r: &'static str) {
        "sound measurement stability"
    }

    fn symbol() -> (r: Option<&'static str>) {
        None
    }

    fn len() -> (r: u8) {
        1
    }

    fn from_bytes(bytes: &[u8], time: Timestamp) -> (r: Result<SoundMeasurementStability>) {
        SoundMeasurementStability::from_byte(bytes[0])
    }

    fn reads(register: u8) -> (r: Vec<BlockRead>) {
        single_block(register, 1)
    }

    fn read(blocks: &Vec<Vec<u8>>, time: Timestamp) -> (r: Result<SoundMeasurementStability>) {
        Self::from_bytes(only_block(blocks, Self::len()), time)
    }

    fn prefix_error(blocks: &Vec<Vec<u8>>) -> (r: Option<MetrifulError>) {
        None
    }
}

/// Unit of readings decoded as [`FixedPoint`]: percent.
#[derive(Debug, Clone, Copy, Default)]
pub struct UnitPercent;

impl MetrifulUnit for UnitPercent {
    type Output = FixedPoint;

    open spec fn spec_name() -> Seq<char> {
        "percent"@
    }

    open spec fn spec_symbol() -> Option<Seq<char>> {
        Some("%"@)
    }

    open spec fn spec_len() -> nat {
        2
    }

    open spec fn spec_decode(bytes: Seq<u8>, time: Timestamp) -> Result<FixedPoint> {
        Ok(spec_fixed_u8(bytes[0], bytes[1]))
    }

    open spec fn spec_reads(register: u8) -> Seq<BlockRead> {
        seq![BlockRead { register, len: 2 }]
    }

    open spec fn spec_read(blocks: Seq<Seq<u8>>, time: Timestamp) -> Result<FixedPoint> {
        Self::spec_decode(blocks[0], time)
    }

    open spec fn spec_prefix_error(blocks: Seq<Seq<u8>>) -> Option<MetrifulError> {
        None
    }

    fn name() -> (r: &'static str) {
        "percent"
    }

    fn symbol() -> (r: Option<&'static str>) {
        Some("%")
    }

    fn len() -> (r: u8) {
        2
    }

    fn from_bytes(bytes: &[u8], time: Timestamp) -> (r: Result<FixedPoint>) {
        Ok(fixed_u8(bytes, 0))
    }

    fn reads(register: u8) -> (r: Vec<BlockRead>) {
        single_block(register, 2)
    }

    fn read(blocks: &Vec<Vec<u8>>, time: Timestamp) -> (r: Result<FixedPoint>) {
        Self::from_bytes(only_block(blocks, Self::len()), time)
    }

    fn prefix_error(blocks: &Vec<Vec<u8>>) -> (r: Option<MetrifulError>) {
        None
    }
}

/// Unit of readings decoded as [`RawParticleConcentration`]: raw particle concentration.
#[derive(Debug, Clone, Copy, Default)]
pub struct UnitRawParticleConcentration;

impl MetrifulUnit for UnitRawParticleConcentration {
    type Output = RawParticleConcentration;

    open spec fn spec_name() -> Seq<char> {
        "raw particle concentration"@
    }

    open spec fn spec_symbol() -> Option<Seq<char>> {
        None
    }

    open spec fn spec_len() -> nat {
        3
    }

    open spec fn spec_decode(bytes: Seq<u8>, time: Timestamp) -> Result<RawParticleConcentration> {
        Ok(RawParticleConcentration::spec_decode(bytes))
    }

    open spec fn spec_reads(register: u8) -> Seq<BlockRead> {
        seq![BlockRead { register, len: 3 }]
    }

    open spec fn spec_read(blocks: Seq<Seq<u8>>, time: Timestamp) -> Result<RawParticleConcentration> {
        Self::spec_decode(blocks[0], time)
    }

    open spec fn spec_prefix_error(blocks: Seq<Seq<u8>>) -> Option<MetrifulError> {
        None
    }

    fn name() -> (r: &'static str) {
        "raw particle concentration"
    }

    fn symbol() -> (r: Option<&'static str>) {
        None
    }

    fn len() -> (r: u8) {
        3
    }

    fn from_bytes(bytes: &[u8], time: Timestamp) -> (r: Result<RawParticleConcentration>) {
        Ok(RawParticleConcentration::decode(bytes))
    }

    fn reads(register: u8) -> (r: Vec<BlockRead>) {
        single_block(register, 3)
    }

    fn read(blocks: &Vec<Vec<u8>>, time: Timestamp) -> (r: Result<RawParticleConcentration>) {
        Self::from_bytes(only_block(blocks, Self::len()), time)
    }

    fn prefix_error(blocks: &Vec<Vec<u8>>) -> (r: Option<MetrifulError>) {
        None
    }
}

/// Unit of readings decoded as [`ParticleDataValidity`]: particle data validity.
#[derive(Debug, Clone, Copy, Default)]
pub struct UnitParticleDataValidity;

impl MetrifulUnit for UnitParticleDataValidity {
    type Output = ParticleDataValidity;

    open spec fn spec_name() -> Seq<char> {
        "particle data validity"@
    }

    open spec fn spec_symbol() -> Option<Seq<char>> {
        None
    }

    open spec fn spec_len() -> nat {
        1
    }

    open spec fn spec_decode(bytes: Seq<u8>, time: Timestamp) -> Result<ParticleDataValidity> {
        ParticleDataValidity::spec_from_byte(bytes[0])
    }

    open spec fn spec_reads(register: u8) -> Seq<BlockRead> {
        seq![BlockRead { register, len: 1 }]
    }

    open spec fn spec_read(blocks: Seq<Seq<u8>>, time: Timestamp) -> Result<ParticleDataValidity> {
        Self::spec_decode(blocks[0], time)
    }

    open spec fn spec_prefix_error(blocks: Seq<Seq<u8>>) -> Option<MetrifulError> {
        None
    }

    fn name() -> (r: &'static str) {
        "particle data validity"
    }

    fn symbol() -> (r: Option<&'static str>) {
        None
    }

    fn len() -> (r: u8) {
        1
    }

    fn from_bytes(bytes: &[u8], time: Timestamp) -> (r: Result<ParticleDataValidity>) {
        ParticleDataValidity::from_byte(bytes[0])
    }

    fn reads(register: u8) -> (r: Vec<BlockRead>) {
        single_block(register, 1)
    }

    fn read(blocks: &Vec<Vec<u8>>, time: Timestamp) -> (r: Result<ParticleDataValidity>) {
        Self::from_bytes(only_block(blocks, Self::len()), time)
    }

    fn prefix_error(blocks: &Vec<Vec<u8>>) -> (r: Option<MetrifulError>) {
        None
    }
}

/// Unit of readings decoded as [`CombinedAirData`]: combined air data.
#[derive(Debug, Clone, Copy, Default)]
pub struct UnitCombinedAirData;

impl MetrifulUnit for UnitCombinedAirData {
    type Output = CombinedAirData;

    open spec fn spec_name() -> Seq<char> {
        "combined air data"@
    }

    open spec fn spec_symbol() -> Option<Seq<char>> {
        None
    }

    open spec fn spec_len() -> nat {
        12
    }

    open spec fn spec_decode(bytes: Seq<u8>, time: Timestamp) -> Result<CombinedAirData> {
        CombinedAirData::spec_decode(bytes, time)
    }

    open spec fn spec_reads(register: u8) -> Seq<BlockRead> {
        seq![BlockRead { register, len: 12 }]
    }

    open spec fn spec_read(blocks: Seq<Seq<u8>>, time: Timestamp) -> Result<CombinedAirData> {
        Self::spec_decode(blocks[0], time)
    }

    open spec fn spec_prefix_error(blocks: Seq<Seq<u8>>) -> Option<MetrifulError> {
        None
    }

    fn name() -> (r: &'static str) {
        "combined air data"
    }

    fn symbol() -> (r: Option<&'static str>) {
        None
    }

    fn len() -> (r: u8) {
        12
    }

    fn from_bytes(bytes: &[u8], time: Timestamp) -> (r: Result<CombinedAirData>) {
        CombinedAirData::decode(bytes, time)
    }

    fn reads(register: u8) -> (r: Vec<BlockRead>) {
        single_block(register, 12)
    }

    fn read(blocks: &Vec<Vec<u8>>, time: Timestamp) -> (r: Result<CombinedAirData>) {
        Self::from_bytes(only_block(blocks, Self::len()), time)
    }

    fn prefix_error(blocks: &Vec<Vec<u8>>) -> (r: Option<MetrifulError>) {
        None
    }
}

/// Unit of readings decoded as [`CombinedAirQualityData`]: combined air quality data.
#[derive(Debug, Clone, Copy, Default)]
pub struct UnitCombinedAirQualityData;

impl MetrifulUnit for UnitCombinedAirQualityData {
    type Output = CombinedAirQualityData;

    open spec fn spec_name() -> Seq<char> {
        "combined air quality data"@
    }

    open spec fn spec_symbol() -> Option<Seq<char>> {
        None
    }

    open spec fn spec_len() -> nat {
        10
    }

    open spec fn spec_decode(bytes: Seq<u8>, time: Timestamp) -> Result<CombinedAirQualityData> {
        CombinedAirQualityData::spec_decode(bytes, time)
    }

    open spec fn spec_reads(register: u8) -> Seq<BlockRead> {
        seq![BlockRead { register, len: 10 }]
    }

    open spec fn spec_read(blocks: Seq<Seq<u8>>, time: Timestamp) -> Result<CombinedAirQualityData> {
        Self::spec_decode(blocks[0], time)
    }

    open spec fn spec_prefix_error(blocks: Seq<Seq<u8>>) -> Option<MetrifulError> {
        None
    }

    fn name() -> (r: &'static str) {
        "combined air quality data"
    }

    fn symbol() -> (r: Option<&'static str>) {
        None
    }

    fn len() -> (r: u8) {
        10
    }

    fn from_bytes(bytes: &[u8], time: Timestamp) -> (r: Result<CombinedAirQualityData>) {
        CombinedAirQualityData::decode(bytes, time)
    }

    fn reads(register: u8) -> (r: Vec<BlockRead>) {
        single_block(register, 10)
    }

    fn read(blocks: &Vec<Vec<u8>>, time: Timestamp) -> (r: Result<CombinedAirQualityData>) {
        Self::from_bytes(only_block(blocks, Self::len()), time)
    }

    fn prefix_error(blocks: &Vec<Vec<u8>>) -> (r: Option<MetrifulError>) {
        None
    }
}

/// Unit of readings decoded as [`CombinedLightData`]: combined light data.
#[derive(Debug, Clone, Copy, Default)]
pub struct UnitCombinedLightData;

impl MetrifulUnit for UnitCombinedLightData {
    type Output = CombinedLightData;

    open spec fn spec_name() -> Seq<char> {
        "combined light data"@
    }

    open spec fn spec_symbol() -> Option<Seq<char>> {
        None
    }

    open spec fn spec_len() -> nat {
        5
    }

    open spec fn spec_decode(bytes: Seq<u8>, time: Timestamp) -> Result<CombinedLightData> {
        CombinedLightData::spec_decode(bytes, time)
    }

    open spec fn spec_reads(register: u8) -> Seq<BlockRead> {
        seq![BlockRead { register, len: 5 }]
    }

    open spec fn spec_read(blocks: Seq<Seq<u8>>, time: Timestamp) -> Result<CombinedLightData> {
        Self::spec_decode(blocks[0], time)
    }

    open spec fn spec_prefix_error(blocks: Seq<Seq<u8>>) -> Option<MetrifulError> {
        None
    }

    fn name() -> (r: &'static str) {
        "combined light data"
    }

    fn symbol() -> (r: Option<&'static str>) {
        None
    }

    fn len() -> (r: u8) {
        5
    }

    fn from_bytes(bytes: &[u8], time: Timestamp) -> (r: Result<CombinedLightData>) {
        CombinedLightData::decode(bytes, time)
    }

    fn reads(register: u8) -> (r: Vec<BlockRead>) {
        single_block(register, 5)
    }

    fn read(blocks: &Vec<Vec<u8>>, time: Timestamp) -> (r: Result<CombinedLightData>) {
        Self::from_bytes(only_block(blocks, Self::len()), time)
    }

    fn prefix_error(blocks: &Vec<Vec<u8>>) -> (r: Option<MetrifulError>) {
        None
    }
}

/// Unit of readings decoded as [`CombinedSoundData`]: combined sound data.
#[derive(Debug, Clone, Copy, Default)]
pub struct UnitCombinedSoundData;

impl MetrifulUnit for UnitCombinedSoundData {
    type Output = CombinedSoundData;

    open spec fn spec_name() -> Seq<char> {
        "combined sound data"@
    }

    open spec fn spec_symbol() -> Option<Seq<char>> {
        None
    }

    open spec fn spec_len() -> nat {
        18
    }

    open spec fn spec_decode(bytes: Seq<u8>, time: Timestamp) -> Result<CombinedSoundData> {
        CombinedSoundData::spec_decode(bytes, time)
    }

    open spec fn spec_reads(register: u8) -> Seq<BlockRead> {
        seq![BlockRead { register, len: 18 }]
    }

    open spec fn spec_read(blocks: Seq<Seq<u8>>, time: Timestamp) -> Result<CombinedSoundData> {
        Self::spec_decode(blocks[0], time)
    }

    open spec fn spec_prefix_error(blocks: Seq<Seq<u8>>) -> Option<MetrifulError> {
        None
    }

    fn name() -> (r: &'static str) {
        "combined sound data"
    }

    fn symbol() -> (r: Option<&'static str>) {
        None
    }

    fn len() -> (r: u8) {
        18
    }

    fn from_bytes(bytes: &[u8], time: Timestamp) -> (r: Result<CombinedSoundData>) {
        CombinedSoundData::decode(bytes, time)
    }

    fn reads(register: u8) -> (r: Vec<BlockRead>) {
        single_block(register, 18)
    }

    fn read(blocks: &Vec<Vec<u8>>, time: Timestamp) -> (r: Result<CombinedSoundData>) {
        Self::from_bytes(only_block(blocks, Self::len()), time)
    }

    fn prefix_error(blocks: &Vec<Vec<u8>>) -> (r: Option<MetrifulError>) {
        None
    }
}

/// Unit of readings decoded as [`CombinedParticleData`]: combined particle data.
#[derive(Debug, Clone, Copy, Default)]
pub struct UnitCombinedParticleData;

impl MetrifulUnit for UnitCombinedParticleData {
    type Output = CombinedParticleData;

    open spec fn spec_name() -> Seq<char> {
        "combined particle data"@
    }

    open spec fn spec_symbol() -> Option<Seq<char>> {
        None
    }

    open spec fn spec_len() -> nat {
        6
    }

    open spec fn spec_decode(bytes: Seq<u8>, time: Timestamp) -> Result<CombinedParticleData> {
        CombinedParticleData::spec_decode(bytes, time)
    }

    open spec fn spec_reads(register: u8) -> Seq<BlockRead> {
        seq![BlockRead { register, len: 6 }]
    }

    open spec fn spec_read(blocks: Seq<Seq<u8>>, time: Timestamp) -> Result<CombinedParticleData> {
        Self::spec_decode(blocks[0], time)
    }

    open spec fn spec_prefix_error(blocks: Seq<Seq<u8>>) -> Option<MetrifulError> {
        None
    }

    fn name() -> (r: &'static str) {
        "combined particle data"
    }

    fn symbol() -> (r: Option<&'static str>) {
        None
    }

    fn len() -> (r: u8) {
        6
    }

    fn from_bytes(bytes: &[u8], time: Timestamp) -> (r: Result<CombinedParticleData>) {
        CombinedParticleData::decode(bytes, time)
    }

    fn reads(register: u8) -> (r: Vec<BlockRead>) {
        single_block(register, 6)
    }

    fn read(blocks: &Vec<Vec<u8>>, time: Timestamp) -> (r: Result<CombinedParticleData>) {
        Self::from_bytes(only_block(blocks, Self::len()), time)
    }

    fn prefix_error(blocks: &Vec<Vec<u8>>) -> (r: Option<MetrifulError>) {
        None
    }
}
/// All air data, from one 12-byte block.
pub struct CombinedAirData {
    pub temperature: UnitValue<UnitDegreesCelsius>,
    pub pressure: UnitValue<UnitPascals>,
    pub humidity: UnitValue<UnitRelativeHumidity>,
    pub gas_sensor_resistance: UnitValue<UnitResistance>,
}

impl CombinedAirData {
    /// Temperature, pressure, humidity and gas sensor resistance, in this
    /// order, at offsets 0, 2, 6 and 8.
    pub open spec fn spec_decode(b: Seq<u8>, time: Timestamp) -> Result<CombinedAirData> {
        Ok(
            CombinedAirData {
                temperature: stamped(UnitDegreesCelsius, spec_fixed_i8(b[0], b[1]), time),
                pressure: stamped(UnitPascals, spec_u32_le(b, 2), time),
                humidity: stamped(UnitRelativeHumidity, spec_fixed_u8(b[6], b[7]), time),
                gas_sensor_resistance: stamped(UnitResistance, spec_u32_le(b, 8), time),
            },
        )
    }

    /// Decodes the combined air data block.
    pub fn decode(bytes: &[u8], time: Timestamp) -> (r: Result<CombinedAirData>)
        requires
            bytes@.len() == 12,
        ensures
            r == Self::spec_decode(bytes@, time),
    {
        let temperature = UnitDegreesCelsius::from_bytes(&bytes[0..2], time)?;
        let pressure = UnitPascals::from_bytes(&bytes[2..6], time)?;
        let humidity = UnitRelativeHumidity::from_bytes(&bytes[6..8], time)?;
        let resistance = UnitResistance::from_bytes(&bytes[8..12], time)?;
        Ok(
            CombinedAirData {
                temperature: UnitValue { unit: UnitDegreesCelsius, value: temperature, time },
                pressure: UnitValue { unit: UnitPascals, value: pressure, time },
                humidity: UnitValue { unit: UnitRelativeHumidity, value: humidity, time },
                gas_sensor_resistance: UnitValue { unit: UnitResistance, value: resistance, time },
            },
        )
    }
}

/// All air quality data, from one 10-byte block. Only valid in cycle mode.
pub struct CombinedAirQualityData {
    pub aqi: UnitValue<UnitAirQualityIndex>,
    pub estimated_co2: UnitValue<UnitPartsPerMillion>,
    pub estimated_voc: UnitValue<UnitPartsPerMillion>,
    pub aqi_accuracy: UnitValue<UnitAQIAccuracy>,
}

impl CombinedAirQualityData {
    /// Air quality index, CO2 and VOC estimates and AQI accuracy, at offsets
    /// 0, 3, 6 and 9; an unknown accuracy byte is an error.
    pub open spec fn spec_decode(b: Seq<u8>, time: Timestamp) -> Result<CombinedAirQualityData> {
        match AQIAccuracy::spec_from_byte(b[9]) {
            Ok(accuracy) => Ok(
                CombinedAirQualityData {
                    aqi: stamped(UnitAirQualityIndex, spec_fixed_u16(b, 0), time),
                    estimated_co2: stamped(UnitPartsPerMillion, spec_fixed_u16(b, 3), time),
                    estimated_voc: stamped(UnitPartsPerMillion, spec_fixed_u16(b, 6), time),
                    aqi_accuracy: stamped(UnitAQIAccuracy, accuracy, time),
                },
            ),
            Err(e) => Err(e),
        }
    }

    /// Decodes the combined air quality data block.
    pub fn decode(bytes: &[u8], time: Timestamp) -> (r: Result<CombinedAirQualityData>)
        requires
            bytes@.len() == 10,
        ensures
            r == Self::spec_decode(bytes@, time),
    {
        let aqi = UnitAirQualityIndex::from_bytes(&bytes[0..3], time)?;
        let co2 = UnitPartsPerMillion::from_bytes(&bytes[3..6], time)?;
        let voc = UnitPartsPerMillion::from_bytes(&bytes[6..9], time)?;
        let accuracy = UnitAQIAccuracy::from_bytes(&bytes[9..10], time)?;
        Ok(
            CombinedAirQualityData {
                aqi: UnitValue { unit: UnitAirQualityIndex, value: aqi, time },
                estimated_co2: UnitValue { unit: UnitPartsPerMillion, value: co2, time },
                estimated_voc: UnitValue { unit: UnitPartsPerMillion, value: voc, time },
                aqi_accuracy: UnitValue { unit: UnitAQIAccuracy, value: accuracy, time },
            },
        )
    }
}

/// All light data, from one 5-byte block.
pub struct CombinedLightData {
    pub illuminance: UnitValue<UnitIlluminance>,
    pub white_level: UnitValue<UnitWhiteLevel>,
}

impl CombinedLightData {
    /// Illuminance and white level, at offsets 0 and 3.
    pub open spec fn spec_decode(b: Seq<u8>, time: Timestamp) -> Result<CombinedLightData> {
        Ok(
            CombinedLightData {
                illuminance: stamped(UnitIlluminance, spec_fixed_u16(b, 0), time),
                white_level: stamped(UnitWhiteLevel, spec_u16_le(b, 3), time),
            },
        )
    }

    /// Decodes the combined light data block.
    pub fn decode(bytes: &[u8], time: Timestamp) -> (r: Result<CombinedLightData>)
        requires
            bytes@.len() == 5,
        ensures
            r == Self::spec_decode(bytes@, time),
    {
        let illuminance = UnitIlluminance::from_bytes(&bytes[0..3], time)?;
        let white_level = UnitWhiteLevel::from_bytes(&bytes[3..5], time)?;
        Ok(
            CombinedLightData {
                illuminance: UnitValue { unit: UnitIlluminance, value: illuminance, time },
                white_level: UnitValue { unit: UnitWhiteLevel, value: white_level, time },
            },
        )
    }
}

/// All sound data, from one 18-byte block.
pub struct CombinedSoundData {
    pub weighted_spl: UnitValue<UnitAWeightedSPL>,
    pub spl_bands: UnitValue<UnitSPLFrequencyBands>,
    pub peak_amplitude: UnitValue<UnitMillipascal>,
    pub measurement_stability: UnitValue<UnitSoundMeasurementStability>,
}

impl CombinedSoundData {
    /// A-weighted level, frequency bands, peak amplitude and stability, at
    /// offsets 0, 2, 14 and 17; an unknown stability byte is an error.
    pub open spec fn spec_decode(b: Seq<u8>, time: Timestamp) -> Result<CombinedSoundData> {
        match SoundMeasurementStability::spec_from_byte(b[17]) {
            Ok(stability) => Ok(
                CombinedSoundData {
                    weighted_spl: stamped(UnitAWeightedSPL, spec_fixed_u8(b[0], b[1]), time),
                    spl_bands: stamped(
                        UnitSPLFrequencyBands,
                        SPLFrequencyBands(spec_band_array(b.subrange(2, 14))),
                        time,
                    ),
                    peak_amplitude: stamped(UnitMillipascal, spec_fixed_u16(b, 14), time),
                    measurement_stability: stamped(UnitSoundMeasurementStability, stability, time),
                },
            ),
            Err(e) => Err(e),
        }
    }

    /// Decodes the combined sound data block.
    pub fn decode(bytes: &[u8], time: Timestamp) -> (r: Result<CombinedSoundData>)
        requires
            bytes@.len() == 18,
        ensures
            r == Self::spec_decode(bytes@, time),
    {
        let weighted = UnitAWeightedSPL::from_bytes(&bytes[0..2], time)?;
        let bands = UnitSPLFrequencyBands::from_bytes(&bytes[2..14], time)?;
        let peak = UnitMillipascal::from_bytes(&bytes[14..17], time)?;
        let stability = UnitSoundMeasurementStability::from_bytes(&bytes[17..18], time)?;
        Ok(
            CombinedSoundData {
                weighted_spl: UnitValue { unit: UnitAWeightedSPL, value: weighted, time },
                spl_bands: UnitValue { unit: UnitSPLFrequencyBands, value: bands, time },
                peak_amplitude: UnitValue { unit: UnitMillipascal, value: peak, time },
                measurement_stability: UnitValue {
                    unit: UnitSoundMeasurementStability,
                    value: stability,
                    time,
                },
            },
        )
    }
}

/// All particle data, from one 6-byte block. Only valid if a particle
/// sensor is attached.
pub struct CombinedParticleData {
    pub duty_cycle: UnitValue<UnitPercent>,
    pub concentration: UnitValue<UnitRawParticleConcentration>,
    pub validity: UnitValue<UnitParticleDataValidity>,
}

impl CombinedParticleData {
    /// Duty cycle, concentration and validity, at offsets 0, 2 and 5; an
    /// unknown validity byte is an error.
    pub open spec fn spec_decode(b: Seq<u8>, time: Timestamp) -> Result<CombinedParticleData> {
        match ParticleDataValidity::spec_from_byte(b[5]) {
            Ok(validity) => Ok(
                CombinedParticleData {
                    duty_cycle: stamped(UnitPercent, spec_fixed_u8(b[0], b[1]), time),
                    concentration: stamped(
                        UnitRawParticleConcentration,
                        RawParticleConcentration::spec_decode(b.subrange(2, 5)),
                        time,
                    ),
                    validity: stamped(UnitParticleDataValidity, validity, time),
                },
            ),
            Err(e) => Err(e),
        }
    }

    /// Decodes the combined particle data block.
    pub fn decode(bytes: &[u8], time: Timestamp) -> (r: Result<CombinedParticleData>)
        requires
            bytes@.len() == 6,
        ensures
            r == Self::spec_decode(bytes@, time),
    {
        let duty_cycle = UnitPercent::from_bytes(&bytes[0..2], time)?;
        let concentration = UnitRawParticleConcentration::from_bytes(&bytes[2..5], time)?;
        let validity = UnitParticleDataValidity::from_bytes(&bytes[5..6], time)?;
        Ok(
            CombinedParticleData {
                duty_cycle: UnitValue { unit: UnitPercent, value: duty_cycle, time },
                concentration: UnitValue {
                    unit: UnitRawParticleConcentration,
                    value: concentration,
                    time,
                },
                validity: UnitValue { unit: UnitParticleDataValidity, value: validity, time },
            },
        )
    }
}

/// Register of the combined air data block.
pub const AIR_DATA_REGISTER: u8 = 0x10;
/// Register of the combined air quality data block.
pub const AIR_QUALITY_DATA_REGISTER: u8 = 0x11;
/// Register of the combined light data block.
pub const LIGHT_DATA_REGISTER: u8 = 0x12;
/// Register of the combined sound data block.
pub const SOUND_DATA_REGISTER: u8 = 0x13;
/// Register of the combined particle data block.
pub const PARTICLE_DATA_REGISTER: u8 = 0x14;

/// All sensor data, read at once with five block reads. Air quality data is
/// only valid in cycle mode, particle data only with a particle sensor.
pub struct CombinedData {
    pub air: UnitValue<UnitCombinedAirData>,
    pub air_quality: UnitValue<UnitCombinedAirQualityData>,
    pub light: UnitValue<UnitCombinedLightData>,
    pub sound: UnitValue<UnitCombinedSoundData>,
    pub particle: UnitValue<UnitCombinedParticleData>,
}

/// The text that `textwrap::indent` makes of `s` with a two-space prefix.
pub uninterp spec fn indented(s: Seq<char>) -> Seq<char>;

/// Indents every line of `s` by two spaces.
///
/// Relies on `textwrap::indent` with the prefix `"  "`: its result depends
/// on the text alone.
#[verifier::external_body]
fn indent_two(s: &str) -> (r: String)
    ensures
        r@ == indented(s@),
{
    textwrap::indent(s, "  ")
}

/// One titled section of the all-domains report: the title, a colon, a line
/// break, the (indented) body and a line break.
pub open spec fn spec_section(title: Seq<char>, body: Seq<char>) -> Seq<char> {
    title + ":\n"@ + body + "\n"@
}

/// The all-domains report from its five indented sections, in order: air,
/// air quality, light, sound and particle data.
pub open spec fn spec_combined_report(
    air: Seq<char>,
    air_quality: Seq<char>,
    light: Seq<char>,
    sound: Seq<char>,
    particle: Seq<char>,
) -> Seq<char> {
    spec_section("air data"@, air) + spec_section("air quality data"@, air_quality) + spec_section(
        "light data"@,
        light,
    ) + spec_section("sound data"@, sound) + spec_section("particle data"@, particle)
}

fn push_section(report: &mut String, title: &str, body: &str)
    ensures
        final(report)@ == old(report)@ + spec_section(title@, body@),
{
    report.append(title);
    report.append(":\n");
    report.append(body);
    report.append("\n");
    assert(final(report)@ =~= old(report)@ + spec_section(title@, body@));
}

impl CombinedData {
    /// Lays out the all-domains report from its five sections, already
    /// rendered and indented.
    pub fn format_indented(air: &str, air_quality: &str, light: &str, sound: &str, particle: &str) -> (r: String)
        ensures
            r@ == spec_combined_report(air@, air_quality@, light@, sound@, particle@),
    {
        let mut r = String::new();
        push_section(&mut r, "air data", air);
        push_section(&mut r, "air quality data", air_quality);
        push_section(&mut r, "light data", light);
        push_section(&mut r, "sound data", sound);
        push_section(&mut r, "particle data", particle);
        assert(r@ =~= spec_combined_report(air@, air_quality@, light@, sound@, particle@));
        r
    }

    /// The all-domains report from its five rendered sections: each under
    /// its title, indented by two spaces.
    pub fn format_sections(air: &str, air_quality: &str, light: &str, sound: &str, particle: &str) -> (r: String)
        ensures
            r@ == spec_combined_report(
                indented(air@),
                indented(air_quality@),
                indented(light@),
                indented(sound@),
                indented(particle@),
            ),
    {
        let air = indent_two(air);
        let air_quality = indent_two(air_quality);
        let light = indent_two(light);
        let sound = indent_two(sound);
        let particle = indent_two(particle);
        Self::format_indented(air.as_str(), air_quality.as_str(), light.as_str(), sound.as_str(), particle.as_str())
    }
}

/// The decode error of block `k` of the all-domains read, if it has one:
/// an unknown AQI accuracy (block 1), sound stability (block 3) or
/// particle validity (block 4).
pub open spec fn spec_block_error(k: int, b: Seq<u8>) -> Option<MetrifulError> {
    if k == 1 {
        match AQIAccuracy::spec_from_byte(b[9]) {
            Err(e) => Some(e),
            Ok(_) => None,
        }
    } else if k == 3 {
        match SoundMeasurementStability::spec_from_byte(b[17]) {
            Err(e) => Some(e),
            Ok(_) => None,
        }
    } else if k == 4 {
        match ParticleDataValidity::spec_from_byte(b[5]) {
            Err(e) => Some(e),
            Ok(_) => None,
        }
    } else {
        None
    }
}

/// The first decode error among the blocks from `k` on, if any.
pub open spec fn spec_first_block_error(blocks: Seq<Seq<u8>>, k: int) -> Option<MetrifulError>
    decreases blocks.len() - k,
{
    if k < 0 || k >= blocks.len() {
        None
    } else {
        match spec_block_error(k, blocks[k]) {
            Some(e) => Some(e),
            None => spec_first_block_error(blocks, k + 1),
        }
    }
}

/// The decode error of block `k` of the all-domains read, if it has one.
fn block_error(k: usize, b: &[u8]) -> (r: Option<MetrifulError>)
    requires
        k == 1 ==> b@.len() == 10,
        k == 3 ==> b@.len() == 18,
        k == 4 ==> b@.len() == 6,
    ensures
        r == spec_block_error(k as int, b@),
{
    if k == 1 {
        match AQIAccuracy::from_byte(b[9]) {
            Err(e) => Some(e),
            Ok(_) => None,
        }
    } else if k == 3 {
        match SoundMeasurementStability::from_byte(b[17]) {
            Err(e) => Some(e),
            Ok(_) => None,
        }
    } else if k == 4 {
        match ParticleDataValidity::from_byte(b[5]) {
            Err(e) => Some(e),
            Ok(_) => None,
        }
    } else {
        None
    }
}

/// Unit of all sensor data at once. It has no block of its own: its value is
/// assembled from the five combined blocks.
#[derive(Debug, Clone, Copy, Default)]
pub struct UnitCombinedData;

impl MetrifulUnit for UnitCombinedData {
    type Output = CombinedData;

    open spec fn spec_name() -> Seq<char> {
        "all combined data"@
    }

    open spec fn spec_symbol() -> Option<Seq<char>> {
        None
    }

    open spec fn spec_len() -> nat {
        0
    }

    open spec fn spec_decode(bytes: Seq<u8>, time: Timestamp) -> Result<CombinedData> {
        Err(MetrifulError::InvalidCombinedDataFromBytes)
    }

    open spec fn spec_reads(register: u8) -> Seq<BlockRead> {
        seq![
            BlockRead { register: AIR_DATA_REGISTER, len: 12 },
            BlockRead { register: AIR_QUALITY_DATA_REGISTER, len: 10 },
            BlockRead { register: LIGHT_DATA_REGISTER, len: 5 },
            BlockRead { register: SOUND_DATA_REGISTER, len: 18 },
            BlockRead { register: PARTICLE_DATA_REGISTER, len: 6 },
        ]
    }

    open spec fn spec_read(blocks: Seq<Seq<u8>>, time: Timestamp) -> Result<CombinedData> {
        match (
            CombinedAirData::spec_decode(blocks[0], time),
            CombinedAirQualityData::spec_decode(blocks[1], time),
            CombinedLightData::spec_decode(blocks[2], time),
            CombinedSoundData::spec_decode(blocks[3], time),
            CombinedParticleData::spec_decode(blocks[4], time),
        ) {
            (Ok(air), Ok(air_quality), Ok(light), Ok(sound), Ok(particle)) => Ok(
                CombinedData {
                    air: stamped(UnitCombinedAirData, air, time),
                    air_quality: stamped(UnitCombinedAirQualityData, air_quality, time),
                    light: stamped(UnitCombinedLightData, light, time),
                    sound: stamped(UnitCombinedSoundData, sound, time),
                    particle: stamped(UnitCombinedParticleData, particle, time),
                },
            ),
            (Err(e), _, _, _, _) => Err(e),
            (_, Err(e), _, _, _) => Err(e),
            (_, _, Err(e), _, _) => Err(e),
            (_, _, _, Err(e), _) => Err(e),
            (_, _, _, _, Err(e)) => Err(e),
        }
    }

    open spec fn spec_prefix_error(blocks: Seq<Seq<u8>>) -> Option<MetrifulError> {
        spec_first_block_error(blocks, 0)
    }

    fn name() -> (r: &'static str) {
        "all combined data"
    }

    fn symbol() -> (r: Option<&'static str>) {
        None
    }

    fn len() -> (r: u8) {
        0
    }

    fn from_bytes(bytes: &[u8], time: Timestamp) -> (r: Result<CombinedData>) {
        Err(MetrifulError::InvalidCombinedDataFromBytes)
    }

    fn reads(register: u8) -> (r: Vec<BlockRead>) {
        let r = vec![
            BlockRead { register: AIR_DATA_REGISTER, len: 12 },
            BlockRead { register: AIR_QUALITY_DATA_REGISTER, len: 10 },
            BlockRead { register: LIGHT_DATA_REGISTER, len: 5 },
            BlockRead { register: SOUND_DATA_REGISTER, len: 18 },
            BlockRead { register: PARTICLE_DATA_REGISTER, len: 6 },
        ];
        assert(r@ =~= Self::spec_reads(register));
        r
    }

    fn read(blocks: &Vec<Vec<u8>>, time: Timestamp) -> (r: Result<CombinedData>) {
        proof {
            let register = choose|register: u8|
                blocks_answer(Self::spec_reads(register), blocks.deep_view());
            assert(blocks.deep_view()[0].len() == 12);
            assert(blocks.deep_view()[1].len() == 10);
            assert(blocks.deep_view()[2].len() == 5);
            assert(blocks.deep_view()[3].len() == 18);
            assert(blocks.deep_view()[4].len() == 6);
            assert(blocks[0]@ =~= blocks.deep_view()[0]);
            assert(blocks[1]@ =~= blocks.deep_view()[1]);
            assert(blocks[2]@ =~= blocks.deep_view()[2]);
            assert(blocks[3]@ =~= blocks.deep_view()[3]);
            assert(blocks[4]@ =~= blocks.deep_view()[4]);
        }
        let air = CombinedAirData::decode(blocks[0].as_slice(), time)?;
        let air_quality = CombinedAirQualityData::decode(blocks[1].as_slice(), time)?;
        let light = CombinedLightData::decode(blocks[2].as_slice(), time)?;
        let sound = CombinedSoundData::decode(blocks[3].as_slice(), time)?;
        let particle = CombinedParticleData::decode(blocks[4].as_slice(), time)?;
        Ok(
            CombinedData {
                air: UnitValue { unit: UnitCombinedAirData, value: air, time },
                air_quality: UnitValue { unit: UnitCombinedAirQualityData, value: air_quality, time },
                light: UnitValue { unit: UnitCombinedLightData, value: light, time },
                sound: UnitValue { unit: UnitCombinedSoundData, value: sound, time },
                particle: UnitValue { unit: UnitCombinedParticleData, value: particle, time },
            },
        )
    }

    fn prefix_error(blocks: &Vec<Vec<u8>>) -> (r: Option<MetrifulError>) {
        let ghost register = choose|register: u8|
            blocks.len() <= Self::spec_reads(register).len() && blocks_answer(
                Self::spec_reads(register).take(blocks.len() as int),
                blocks.deep_view(),
            );
        let mut k: usize = 0;
        while k < blocks.len()
            invariant
                k <= blocks.len() <= 5,
                blocks_answer(Self::spec_reads(register).take(blocks.len() as int), blocks.deep_view()),
                spec_first_block_error(blocks.deep_view(), 0) == spec_first_block_error(
                    blocks.deep_view(),
                    k as int,
                ),
            decreases blocks.len() - k,
        {
            assert(blocks[k as int]@ =~= blocks.deep_view()[k as int]);
            assert(blocks.deep_view()[k as int].len() == Self::spec_reads(register).take(
                blocks.len() as int,
            )[k as int].len);
            let e = block_error(k, blocks[k].as_slice());
            if e.is_some() {
                return e;
            }
            k = k + 1;
        }
        None
    }
}

/// The all-domains read and its block-by-block check agree: on all five
/// blocks, the read fails exactly when some block holds a decode error, and
/// then with the error of the earliest such block.
pub proof fn lemma_combined_read_first_error(blocks: Seq<Seq<u8>>, time: Timestamp)
    requires
        blocks_answer(UnitCombinedData::spec_reads(AIR_DATA_REGISTER), blocks),
    ensures
        UnitCombinedData::spec_read(blocks, time) is Err <==> spec_first_block_error(blocks, 0) is Some,
        spec_first_block_error(blocks, 0) matches Some(e) ==> UnitCombinedData::spec_read(blocks, time)
            == Err::<CombinedData, MetrifulError>(e),
{
    let reads = UnitCombinedData::spec_reads(AIR_DATA_REGISTER);
    assert(blocks[1].len() == reads[1].len);
    assert(blocks[3].len() == reads[3].len);
    assert(blocks[4].len() == reads[4].len);
    reveal_with_fuel(spec_first_block_error, 6);
}

/// The little-endian bytes of a 32-bit unsigned integer.
pub open spec fn spec_u32_bytes(v: u32) -> Seq<u8> {
    seq![
        (v % 256) as u8,
        ((v / 256) % 256) as u8,
        ((v / 65536) % 256) as u8,
        (v / 16777216) as u8,
    ]
}

/// The combined air data block that holds these four readings: the
/// temperature as a two's complement integer byte and a fraction byte, the
/// pressure, the humidity as an integer byte and a fraction byte, and the
/// gas sensor resistance.
pub open spec fn spec_air_block(temperature: FixedPoint, pressure: u32, humidity: FixedPoint, resistance: u32) -> Seq<u8> {
    seq![
        (if temperature.integer >= 0 { temperature.integer as int } else { temperature.integer + 256 }) as u8,
        temperature.fraction,
    ] + spec_u32_bytes(pressure) + seq![humidity.integer as u8, humidity.fraction] + spec_u32_bytes(
        resistance,
    )
}

/// Decoding reproduces a combined air data block: the block that holds a
/// temperature, a pressure, a humidity and a gas sensor resistance decodes
/// to exactly those four readings, in that field order, all stamped with
/// the time of the read.
pub proof fn lemma_air_data_round_trip(
    temperature: FixedPoint,
    pressure: u32,
    humidity: FixedPoint,
    resistance: u32,
    time: Timestamp,
)
    requires
        -128 <= temperature.integer < 128,
        0 <= humidity.integer < 256,
    ensures
        spec_air_block(temperature, pressure, humidity, resistance).len() == 12,
        CombinedAirData::spec_decode(spec_air_block(temperature, pressure, humidity, resistance), time)
            == Ok::<CombinedAirData, MetrifulError>(
            CombinedAirData {
                temperature: stamped(UnitDegreesCelsius, temperature, time),
                pressure: stamped(UnitPascals, pressure, time),
                humidity: stamped(UnitRelativeHumidity, humidity, time),
                gas_sensor_resistance: stamped(UnitResistance, resistance, time),
            },
        ),
{
    let b = spec_air_block(temperature, pressure, humidity, resistance);
    lemma_u32_bytes(pressure);
    lemma_u32_bytes(resistance);
    assert(b.subrange(2, 6) =~= spec_u32_bytes(pressure));
    assert(b.subrange(8, 12) =~= spec_u32_bytes(resistance));
    assert(spec_u32_le(b, 2) == pressure);
    assert(spec_u32_le(b, 8) == resistance);
    assert(spec_fixed_i8(b[0], b[1]) == temperature);
    assert(spec_fixed_u8(b[6], b[7]) == humidity);
}

/// The little-endian bytes of a 32-bit integer read back as that integer.
proof fn lemma_u32_bytes(v: u32)
    ensures
        spec_u32_le(spec_u32_bytes(v), 0) == v,
{
    let b = spec_u32_bytes(v);
    assert(b[0] + 256 * b[1] + 65536 * b[2] + 16777216 * b[3] == v) by (nonlinear_arith)
        requires
            b[0] == v % 256,
            b[1] == (v / 256) % 256,
            b[2] == (v / 65536) % 256,
            b[3] == v / 16777216,
            v < 0x1_0000_0000,
    {
    }
}

} // verus!
