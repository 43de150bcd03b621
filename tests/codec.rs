use metriful::metric::ReadStep;
use metriful::unit::format_value;
use metriful::codec::{fixed_i8, fixed_u16, fixed_u8, read_i8, read_u16_le, read_u32_le, FixedPoint};
use metriful::metric::{
    metric_combined_air_data, metric_combined_all, metric_sound_level, metric_temperature,
};
use metriful::unit::{
    AQIAccuracy, BlockRead, CombinedAirData, CombinedData, CombinedAirQualityData, CombinedLightData,
    CombinedParticleData, CombinedSoundData, MetrifulUnit, ParticleDataValidity,
    RawParticleConcentration, SPLFrequencyBands, SoundMeasurementStability, Timestamp,
    UnitAQIAccuracy, UnitCombinedData, UnitDegreesCelsius, UnitPascals, UnitRelativeHumidity,
    UnitSPLFrequencyBands, UnitWhiteLevel,
};
use metriful::MetrifulError;

const T: Timestamp = Timestamp { millis: 1_600_000_000_000 };

fn fp(integer: i32, fraction: u8) -> FixedPoint {
    FixedPoint { integer, fraction }
}

#[test]
fn little_endian_integers() {
    assert_eq!(read_u16_le(&[0x34, 0x12], 0), 0x1234);
    assert_eq!(read_u32_le(&[0xCD, 0x8B, 0x01, 0x00], 0), 101_325);
    assert_eq!(read_u32_le(&[0xFF, 0xFF, 0xFF, 0xFF], 0), u32::MAX);
    assert_eq!(read_u32_le(&[9, 0x40, 0xE2, 0x01, 0x00], 1), 123_456);
}

#[test]
fn signed_byte() {
    assert_eq!(read_i8(0), 0);
    assert_eq!(read_i8(127), 127);
    assert_eq!(read_i8(128), -128);
    assert_eq!(read_i8(0xF6), -10);
}

#[test]
fn fixed_point_recombines_integer_and_tenths() {
    // integer 21, fraction 5 reads 21.5
    let v = fixed_u8(&[21, 5], 0);
    assert_eq!(v, fp(21, 5));
    assert_eq!(v.to_tenths(), 215);
    for frac in 0u8..=99 {
        assert_eq!(fixed_u8(&[21, frac], 0).to_tenths(), 210 + frac as i64);
    }
    assert_eq!(fixed_i8(&[0xF6, 3], 0), fp(-10, 3));
    assert_eq!(fixed_i8(&[0xF6, 3], 0).to_tenths(), -97);
    assert_eq!(fixed_u16(&[0x10, 0x27, 9], 0), fp(10_000, 9));
    assert_eq!(FixedPoint::from_parts(-3, 99).to_tenths(), -30 + 99);
}

#[test]
fn unit_lengths_and_names() {
    assert_eq!(UnitDegreesCelsius::len(), 2);
    assert_eq!(UnitPascals::len(), 4);
    assert_eq!(UnitSPLFrequencyBands::len(), 12);
    assert_eq!(UnitCombinedData::len(), 0);
    assert_eq!(UnitDegreesCelsius::name(), "degrees Celsius");
    assert_eq!(UnitPascals::symbol(), Some("Pa"));
    assert_eq!(UnitWhiteLevel::symbol(), None);
    assert_eq!(UnitRelativeHumidity::symbol(), Some("% RH"));
}

#[test]
fn air_data_block_round_trip() {
    // temperature 21.5 C, pressure 101325 Pa, humidity 45.2 %RH, resistance 123456 ohms
    let block = [21u8, 5, 0xCD, 0x8B, 0x01, 0x00, 45, 2, 0x40, 0xE2, 0x01, 0x00];
    let air = CombinedAirData::decode(&block, T).unwrap();
    assert_eq!(air.temperature.value, fp(21, 5));
    assert_eq!(air.pressure.value, 101_325);
    assert_eq!(air.humidity.value, fp(45, 2));
    assert_eq!(air.gas_sensor_resistance.value, 123_456);
    assert_eq!(air.temperature.time, T);
    assert_eq!(air.gas_sensor_resistance.time, T);
}

#[test]
fn air_data_negative_temperature() {
    let block = [0xFB, 7, 0, 0, 0, 0, 0, 0, 0, 0, 0, 0];
    let air = CombinedAirData::decode(&block, T).unwrap();
    assert_eq!(air.temperature.value, fp(-5, 7));
    assert_eq!(air.pressure.value, 0);
}

#[test]
fn air_quality_data() {
    let block = [0x2C, 0x01, 4, 0x90, 0x01, 0, 0x02, 0x00, 3, 2];
    let aq = CombinedAirQualityData::decode(&block, T).unwrap();
    assert_eq!(aq.aqi.value, fp(300, 4));
    assert_eq!(aq.estimated_co2.value, fp(400, 0));
    assert_eq!(aq.estimated_voc.value, fp(2, 3));
    assert_eq!(aq.aqi_accuracy.value, AQIAccuracy::Medium);
}

#[test]
fn air_quality_data_bad_accuracy() {
    let block = [0, 0, 0, 0, 0, 0, 0, 0, 0, 4];
    assert!(matches!(
        CombinedAirQualityData::decode(&block, T),
        Err(MetrifulError::InvalidAQIAccuracy(4))
    ));
}

#[test]
fn aqi_accuracy_bytes() {
    for b in 0u8..=3 {
        let a = AQIAccuracy::from_byte(b).unwrap();
        assert_eq!(a.to_uint(), b);
    }
    assert_eq!(AQIAccuracy::from_byte(2).unwrap(), AQIAccuracy::Medium);
    assert!(matches!(AQIAccuracy::from_byte(4), Err(MetrifulError::InvalidAQIAccuracy(4))));
    assert!(matches!(UnitAQIAccuracy::from_bytes(&[255], T), Err(MetrifulError::InvalidAQIAccuracy(255))));
    assert_eq!(AQIAccuracy::High.as_str(), "high");
}

#[test]
fn light_data() {
    let block = [0xE8, 0x03, 5, 0x10, 0x00];
    let light = CombinedLightData::decode(&block, T).unwrap();
    assert_eq!(light.illuminance.value, fp(1000, 5));
    assert_eq!(light.white_level.value, 16);
}

#[test]
fn sound_data_and_bands() {
    let mut block = vec![55u8, 3];
    block.extend_from_slice(&[40, 41, 42, 43, 44, 45]);
    block.extend_from_slice(&[0, 1, 2, 3, 4, 5]);
    block.extend_from_slice(&[0x64, 0x00, 7]);
    block.push(1);
    let sound = CombinedSoundData::decode(&block, T).unwrap();
    assert_eq!(sound.weighted_spl.value, fp(55, 3));
    let SPLFrequencyBands(bands) = sound.spl_bands.value;
    assert_eq!(bands, [fp(40, 0), fp(41, 1), fp(42, 2), fp(43, 3), fp(44, 4), fp(45, 5)]);
    assert_eq!(sound.peak_amplitude.value, fp(100, 7));
    assert_eq!(sound.measurement_stability.value, SoundMeasurementStability::Stable);
}

#[test]
fn sound_stability_bytes() {
    assert_eq!(SoundMeasurementStability::from_byte(1).unwrap(), SoundMeasurementStability::Stable);
    assert_eq!(SoundMeasurementStability::from_byte(0).unwrap(), SoundMeasurementStability::Unstable);
    assert!(matches!(
        SoundMeasurementStability::from_byte(7),
        Err(MetrifulError::InvalidSoundMeasurementStability(7))
    ));
    assert!(matches!(
        SoundMeasurementStability::from_byte(2),
        Err(MetrifulError::InvalidSoundMeasurementStability(2))
    ));
    assert_eq!(SoundMeasurementStability::Stable.to_uint(), 1);
    assert_eq!(SoundMeasurementStability::Unstable.to_uint(), 0);
}

#[test]
fn sound_data_bad_stability() {
    let mut block = vec![0u8; 17];
    block.push(2);
    assert!(matches!(
        CombinedSoundData::decode(&block, T),
        Err(MetrifulError::InvalidSoundMeasurementStability(2))
    ));
}

#[test]
fn particle_data() {
    let block = [12, 5, 0x20, 0x00, 3, 1];
    let p = CombinedParticleData::decode(&block, T).unwrap();
    assert_eq!(p.duty_cycle.value, fp(12, 5));
    let RawParticleConcentration { sds011_value, ppd42_value } = p.concentration.value;
    assert_eq!(sds011_value, fp(32, 3));
    assert_eq!(ppd42_value, 32);
    assert_eq!(p.validity.value, ParticleDataValidity::Settled);
}

#[test]
fn particle_validity_bytes() {
    assert_eq!(ParticleDataValidity::from_byte(0).unwrap(), ParticleDataValidity::Initializing);
    assert_eq!(ParticleDataValidity::from_byte(1).unwrap(), ParticleDataValidity::Settled);
    assert!(matches!(
        ParticleDataValidity::from_byte(2),
        Err(MetrifulError::InvalidParticleDataValidity(2))
    ));
    let block = [0, 0, 0, 0, 0, 9];
    assert!(matches!(
        CombinedParticleData::decode(&block, T),
        Err(MetrifulError::InvalidParticleDataValidity(9))
    ));
}

#[test]
fn metric_single_block_read() {
    let m = metric_temperature();
    assert_eq!(m.register, 0x21);
    assert_eq!(m.reads(), vec![BlockRead { register: 0x21, len: 2 }]);
    let v = m.decode(&vec![vec![21, 5]], T).unwrap();
    assert_eq!(v.value, fp(21, 5));
    assert_eq!(v.time, T);
    assert_eq!(metric_sound_level().reads(), vec![BlockRead { register: 0x42, len: 12 }]);
}

#[test]
fn metric_read_stamps_current_time() {
    let m = metric_combined_air_data();
    let block = vec![21u8, 5, 0xCD, 0x8B, 0x01, 0x00, 45, 2, 0x40, 0xE2, 0x01, 0x00];
    let v = m.read(&vec![block]).unwrap();
    // after 2020-09-13 and the stamp is shared by the nested readings
    assert!(v.time.millis > 1_600_000_000_000);
    assert_eq!(v.value.pressure.time, v.time);
    assert_eq!(v.value.pressure.value, 101_325);
}

#[test]
fn combined_all_reads_five_blocks() {
    let m = metric_combined_all();
    assert_eq!(
        m.reads(),
        vec![
            BlockRead { register: 0x10, len: 12 },
            BlockRead { register: 0x11, len: 10 },
            BlockRead { register: 0x12, len: 5 },
            BlockRead { register: 0x13, len: 18 },
            BlockRead { register: 0x14, len: 6 },
        ]
    );
    assert!(matches!(
        UnitCombinedData::from_bytes(&[], T),
        Err(MetrifulError::InvalidCombinedDataFromBytes)
    ));
    let blocks = vec![
        vec![21u8, 5, 0xCD, 0x8B, 0x01, 0x00, 45, 2, 0x40, 0xE2, 0x01, 0x00],
        vec![0x2C, 0x01, 4, 0x90, 0x01, 0, 0x02, 0x00, 3, 2],
        vec![0xE8, 0x03, 5, 0x10, 0x00],
        vec![55, 3, 40, 41, 42, 43, 44, 45, 0, 1, 2, 3, 4, 5, 0x64, 0x00, 7, 0],
        vec![12, 5, 0x20, 0x00, 3, 0],
    ];
    let all = m.decode(&blocks, T).unwrap().value;
    assert_eq!(all.air.value.humidity.value, fp(45, 2));
    assert_eq!(all.air_quality.value.aqi_accuracy.value, AQIAccuracy::Medium);
    assert_eq!(all.light.value.white_level.value, 16);
    assert_eq!(all.sound.value.measurement_stability.value, SoundMeasurementStability::Unstable);
    assert_eq!(all.particle.value.validity.value, ParticleDataValidity::Initializing);
    assert_eq!(all.particle.time, T);
}

#[test]
fn combined_all_first_error_wins() {
    let blocks = vec![
        vec![0u8; 12],
        vec![0, 0, 0, 0, 0, 0, 0, 0, 0, 8],
        vec![0u8; 5],
        vec![0u8; 18],
        vec![0, 0, 0, 0, 0, 5],
    ];
    assert!(matches!(
        metric_combined_all().decode(&blocks, T),
        Err(MetrifulError::InvalidAQIAccuracy(8))
    ));
}

#[test]
fn combined_all_stops_reading_at_first_bad_block() {
    let m = metric_combined_all();
    let mut blocks: Vec<Vec<u8>> = Vec::new();
    assert!(matches!(m.read_step(&blocks), ReadStep::Read(BlockRead { register: 0x10, len: 12 })));
    blocks.push(vec![0u8; 12]);
    assert!(matches!(m.read_step(&blocks), ReadStep::Read(BlockRead { register: 0x11, len: 10 })));
    // an unknown AQI accuracy in the second block ends the read there
    blocks.push(vec![0, 0, 0, 0, 0, 0, 0, 0, 0, 8]);
    assert!(matches!(m.read_step(&blocks), ReadStep::Failed(MetrifulError::InvalidAQIAccuracy(8))));
}

#[test]
fn combined_all_read_steps_to_completion() {
    let m = metric_combined_all();
    let answers = vec![
        vec![0u8; 12],
        vec![0u8; 10],
        vec![0u8; 5],
        vec![0u8; 18],
        vec![0u8; 6],
    ];
    let mut blocks: Vec<Vec<u8>> = Vec::new();
    loop {
        match m.read_step(&blocks) {
            ReadStep::Read(_) => blocks.push(answers[blocks.len()].clone()),
            ReadStep::Failed(e) => panic!("unexpected {:?}", e),
            ReadStep::Complete => break,
        }
    }
    assert_eq!(blocks.len(), 5);
    assert!(m.decode(&blocks, T).is_ok());
    let single = metric_temperature();
    assert!(matches!(single.read_step(&vec![vec![1, 2]]), ReadStep::Complete));
}

#[test]
fn value_with_symbol() {
    assert_eq!(format_value::<UnitPascals>("101325"), "101325 Pa");
    assert_eq!(format_value::<UnitWhiteLevel>("16"), "16");
    assert_eq!(format_value::<UnitDegreesCelsius>("21.5"), "21.5 \u{2103}");
}

#[test]
fn combined_report_layout() {
    let r = CombinedData::format_indented("  a\n", "  b\n", "  c\n", "  d\n", "  e\n");
    assert_eq!(
        r,
        "air data:\n  a\n\nair quality data:\n  b\n\nlight data:\n  c\n\nsound data:\n  d\n\nparticle data:\n  e\n\n"
    );
}

#[test]
fn combined_report_indents_sections() {
    let r = CombinedData::format_sections("x: 1\ny: 2\n", "q\n", "l\n", "s\n", "p\n");
    assert!(r.starts_with("air data:\n  x: 1\n  y: 2\n\nair quality data:\n  q\n\n"));
    assert!(r.ends_with("particle data:\n  p\n\n"));
}
