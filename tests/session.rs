use metriful::session::ModeChangeStep;
use metriful::strategy::MeasurementStep;
use std::collections::HashMap;

use metriful::codec::FixedPoint;
use metriful::metric::metric_temperature;
use metriful::session::{
    CLEAR_LIGHT_INTERRUPT_COMMAND, CLEAR_SOUND_INTERRUPT_COMMAND, CYCLE_MODE_COMMAND,
    MEASURE_COMMAND, RESET_COMMAND, STANDBY_MODE_COMMAND,
};
use metriful::strategy::{background_step, BackgroundStep, CycleStep};
use metriful::unit::Timestamp;
use metriful::{
    Command, CyclePeriod, DeviceStatus, InterruptMode, InterruptPolarity, InterruptStatus,
    LightInterrupt, Metriful, MetrifulError, OperationalMode, ParticleSensorMode, RegisterRead,
    SoundInterrupt, StatusStep, WaitStep,
};

/// A device that answers register reads from fixed contents and tracks its
/// mode from the commands written to it.
struct FakeDevice {
    bytes: HashMap<u8, u8>,
    blocks: HashMap<u8, Vec<u8>>,
    writes: Vec<Command>,
    pending_period: u8,
}

impl FakeDevice {
    fn new(mode: OperationalMode) -> FakeDevice {
        let mut d = FakeDevice {
            bytes: HashMap::new(),
            blocks: HashMap::new(),
            writes: Vec::new(),
            pending_period: 0,
        };
        d.bytes.insert(0x07, 0);
        d.bytes.insert(0x81, 0);
        d.bytes.insert(0x86, 0);
        d.set_mode(mode);
        d
    }

    fn set_mode(&mut self, mode: OperationalMode) {
        match mode {
            OperationalMode::Standby => {
                self.bytes.insert(0x8A, 0);
            }
            OperationalMode::Cycle(p) => {
                self.bytes.insert(0x8A, 1);
                self.bytes.insert(0x89, p.to_value());
            }
        }
    }

    fn answer(&self, read: RegisterRead) -> Vec<u8> {
        match read {
            RegisterRead::Byte(r) => vec![self.bytes[&r]],
            RegisterRead::Block { register, len } => {
                let b = self.blocks[&register].clone();
                assert_eq!(b.len(), len as usize);
                b
            }
        }
    }

    fn read_status(&self, session: &mut Metriful) -> Result<DeviceStatus, MetrifulError> {
        let mut answers = Vec::new();
        loop {
            match session.read_status(&answers) {
                StatusStep::Read(r) => answers.extend(self.answer(r)),
                StatusStep::Done(r) => return r,
            }
        }
    }

    fn run(&mut self, commands: &[Command]) {
        for c in commands {
            match *c {
                Command::Write(STANDBY_MODE_COMMAND) => self.set_mode(OperationalMode::Standby),
                Command::Write(CYCLE_MODE_COMMAND) => {
                    let p = CyclePeriod::from_value(self.pending_period).unwrap();
                    self.set_mode(OperationalMode::Cycle(p));
                }
                Command::WriteRegister { register: 0x89, value } => self.pending_period = value,
                _ => {}
            }
            if matches!(c, Command::Write(_) | Command::WriteRegister { .. }) {
                self.writes.push(*c);
            }
        }
    }

    fn set_mode_via(&mut self, session: &mut Metriful, mode: OperationalMode) -> DeviceStatus {
        self.read_status(session).unwrap();
        let plan = session.set_mode_timeout(mode).unwrap();
        self.run(&plan);
        self.read_status(session).unwrap()
    }
}

#[test]
fn status_standby_all_disabled() {
    let dev = FakeDevice::new(OperationalMode::Standby);
    let mut s = Metriful::new();
    let status = dev.read_status(&mut s).unwrap();
    assert_eq!(
        status,
        DeviceStatus {
            particle_sensor: ParticleSensorMode::Disabled,
            light_int: InterruptStatus::Disabled,
            sound_int: InterruptStatus::Disabled,
            mode: OperationalMode::Standby,
        }
    );
    assert_eq!(s.status(), Some(status));
    assert!(s.is_mode_standby());
    assert!(!s.is_mode_cycle());
}

#[test]
fn status_reads_in_protocol_order() {
    let mut answers: Vec<u8> = Vec::new();
    let mut seen = Vec::new();
    // particle sensor 1, light interrupt on, sound interrupt on, cycle mode 2
    let script: Vec<Vec<u8>> = vec![
        vec![1],
        vec![1],
        vec![1],
        vec![0],
        vec![0x2C, 0x01, 5],
        vec![2],
        vec![0],
        vec![0x10, 0x27],
        vec![1],
        vec![2],
    ];
    let mut next = script.into_iter();
    let status = loop {
        match DeviceStatus::read(&answers) {
            StatusStep::Read(r) => {
                seen.push(r);
                answers.extend(next.next().unwrap());
            }
            StatusStep::Done(r) => break r.unwrap(),
        }
    };
    assert_eq!(
        seen,
        vec![
            RegisterRead::Byte(0x07),
            RegisterRead::Byte(0x81),
            RegisterRead::Byte(0x83),
            RegisterRead::Byte(0x84),
            RegisterRead::Block { register: 0x82, len: 3 },
            RegisterRead::Byte(0x86),
            RegisterRead::Byte(0x87),
            RegisterRead::Block { register: 0x86, len: 2 },
            RegisterRead::Byte(0x8A),
            RegisterRead::Byte(0x89),
        ]
    );
    assert_eq!(status.particle_sensor, ParticleSensorMode::EnabledPPD42);
    assert_eq!(
        status.light_int,
        InterruptStatus::Enabled(LightInterrupt {
            mode: InterruptMode::Comparator,
            polarity: InterruptPolarity::Positive,
            threshold: FixedPoint { integer: 300, fraction: 5 },
        })
    );
    assert_eq!(
        status.sound_int,
        InterruptStatus::Enabled(SoundInterrupt { mode: InterruptMode::Latch, threshold: 10_000 })
    );
    assert_eq!(status.mode, OperationalMode::Cycle(CyclePeriod::Period2));
}

#[test]
fn status_invalid_bytes() {
    assert!(matches!(
        DeviceStatus::read(&[5]),
        StatusStep::Done(Err(MetrifulError::InvalidParticleSensorMode(5)))
    ));
    assert!(matches!(
        DeviceStatus::read(&[0, 0, 0, 7]),
        StatusStep::Done(Err(MetrifulError::InvalidOperationalMode(7)))
    ));
    assert!(matches!(
        DeviceStatus::read(&[0, 0, 0, 1, 9]),
        StatusStep::Done(Err(MetrifulError::InvalidCyclePeriod(9)))
    ));
    // a failed read leaves the cached status as it was
    let mut s = Metriful::new();
    s.read_status(&[5]);
    assert_eq!(s.status(), None);
}

#[test]
fn cycle_period_values_round_trip() {
    for p in [CyclePeriod::Period0, CyclePeriod::Period1, CyclePeriod::Period2] {
        assert_eq!(CyclePeriod::from_value(p.to_value()).unwrap(), p);
    }
    let values: Vec<u8> = [CyclePeriod::Period0, CyclePeriod::Period1, CyclePeriod::Period2]
        .iter()
        .map(|p| p.to_value())
        .collect();
    assert_eq!(values, vec![0, 1, 2]);
    for b in 3u8..=255 {
        assert!(matches!(CyclePeriod::from_value(b), Err(MetrifulError::InvalidCyclePeriod(x)) if x == b));
    }
    assert_eq!(CyclePeriod::Period1.to_duration(), 100);
}

#[test]
fn cycle_period_from_text() {
    assert_eq!("3s".parse::<CyclePeriod>().unwrap(), CyclePeriod::Period0);
    assert_eq!("0".parse::<CyclePeriod>().unwrap(), CyclePeriod::Period0);
    assert_eq!(CyclePeriod::parse("100s").unwrap(), CyclePeriod::Period1);
    assert_eq!(CyclePeriod::parse("2").unwrap(), CyclePeriod::Period2);
    match CyclePeriod::parse("5s") {
        Err(MetrifulError::InvalidCyclePeriodString(t)) => assert_eq!(t, "5s"),
        other => panic!("unexpected {:?}", other),
    }
}

#[test]
fn particle_sensor_mode_values() {
    assert_eq!(ParticleSensorMode::from_value(2).unwrap(), ParticleSensorMode::EnabledSDS011);
    assert_eq!(ParticleSensorMode::EnabledPPD42.to_value(), 1);
    assert!(matches!(
        ParticleSensorMode::from_value(3),
        Err(MetrifulError::InvalidParticleSensorMode(3))
    ));
}

#[test]
fn mode_switch_rules_and_latencies() {
    let c0 = OperationalMode::Cycle(CyclePeriod::Period0);
    let c1 = OperationalMode::Cycle(CyclePeriod::Period1);
    assert!(c0.is_switch_allowed(OperationalMode::Standby));
    assert!(OperationalMode::Standby.is_switch_allowed(c1));
    assert!(!c0.is_switch_allowed(c1));
    assert!(!OperationalMode::Standby.is_switch_allowed(OperationalMode::Standby));
    assert_eq!(OperationalMode::Standby.ready_duration(), 11);
    assert_eq!(c0.ready_duration(), 600);
    assert_eq!(c1.ready_duration(), 2600);
    assert_eq!(OperationalMode::Cycle(CyclePeriod::Period2).ready_duration(), 2600);
}

#[test]
fn set_mode_twice_writes_nothing_more() {
    let mut dev = FakeDevice::new(OperationalMode::Standby);
    let mut s = Metriful::new();
    let target = OperationalMode::Cycle(CyclePeriod::Period0);
    let status = dev.set_mode_via(&mut s, target);
    assert_eq!(status.mode, target);
    let after_first = dev.writes.len();
    assert_eq!(after_first, 2);
    dev.set_mode_via(&mut s, target);
    assert_eq!(dev.writes.len(), after_first);
    assert!(s.set_mode_timeout(target).unwrap().is_empty());
}

#[test]
fn cycle_to_cycle_passes_through_standby() {
    let mut dev = FakeDevice::new(OperationalMode::Cycle(CyclePeriod::Period0));
    let mut s = Metriful::new();
    let status = dev.set_mode_via(&mut s, OperationalMode::Cycle(CyclePeriod::Period1));
    assert_eq!(status.mode, OperationalMode::Cycle(CyclePeriod::Period1));
    let standby = dev.writes.iter().position(|c| *c == Command::Write(0xE5)).unwrap();
    let cycle = dev.writes.iter().position(|c| *c == Command::Write(0xE4)).unwrap();
    assert!(standby < cycle);
}

#[test]
fn set_mode_plans() {
    let mut s = Metriful::new();
    assert!(matches!(s.set_mode_timeout(OperationalMode::Standby), Err(MetrifulError::StatusMissing)));
    let dev = FakeDevice::new(OperationalMode::Cycle(CyclePeriod::Period2));
    dev.read_status(&mut s).unwrap();
    assert_eq!(s.set_mode_timeout(OperationalMode::Standby).unwrap(), vec![Command::Write(0xE5)]);
    assert_eq!(
        s.set_mode_timeout(OperationalMode::Cycle(CyclePeriod::Period0)).unwrap(),
        vec![
            Command::Write(0xE5),
            Command::WaitReady,
            Command::WriteRegister { register: 0x89, value: 0 },
            Command::Sleep(6),
            Command::Write(0xE4),
            Command::Sleep(600),
        ]
    );
}

#[test]
fn measurement_needs_status_standby_and_ready() {
    let mut s = Metriful::new();
    assert!(matches!(s.execute_measurement(true), Err(MetrifulError::StatusMissing)));
    let dev = FakeDevice::new(OperationalMode::Cycle(CyclePeriod::Period0));
    dev.read_status(&mut s).unwrap();
    match s.execute_measurement(true) {
        Err(MetrifulError::InvalidMode { current, required }) => {
            assert_eq!(current, OperationalMode::Cycle(CyclePeriod::Period0));
            assert_eq!(required, OperationalMode::Standby);
        }
        other => panic!("unexpected {:?}", other),
    }
    let dev = FakeDevice::new(OperationalMode::Standby);
    dev.read_status(&mut s).unwrap();
    assert!(matches!(s.execute_measurement(false), Err(MetrifulError::NotReady)));
    assert_eq!(
        s.execute_measurement(true).unwrap(),
        vec![Command::Write(MEASURE_COMMAND), Command::Sleep(6)]
    );
}

#[test]
fn single_commands() {
    let s = Metriful::new();
    assert!(matches!(s.reset(false), Err(MetrifulError::NotReady)));
    assert_eq!(
        s.reset(true).unwrap(),
        vec![Command::Write(RESET_COMMAND), Command::Sleep(6), Command::WaitReady]
    );
    assert_eq!(
        s.clear_light_interrupt(true).unwrap(),
        vec![Command::Write(CLEAR_LIGHT_INTERRUPT_COMMAND), Command::Sleep(6)]
    );
    assert_eq!(
        s.clear_sound_interrupt(true).unwrap(),
        vec![Command::Write(CLEAR_SOUND_INTERRUPT_COMMAND), Command::Sleep(6)]
    );
    assert!(matches!(s.clear_sound_interrupt(false), Err(MetrifulError::NotReady)));
    assert!(s.ensure_ready(true).is_ok());
}

#[test]
fn ready_waits() {
    assert_eq!(Metriful::wait_for_ready_timeout(true, 5000, Some(10)).unwrap(), WaitStep::Reached);
    assert_eq!(Metriful::wait_for_ready_timeout(false, 5, Some(10)).unwrap(), WaitStep::Poll(10));
    assert_eq!(Metriful::wait_for_ready_timeout(false, 10, Some(10)).unwrap(), WaitStep::Poll(10));
    assert!(matches!(
        Metriful::wait_for_ready_timeout(false, 11, Some(10)),
        Err(MetrifulError::ReadyTimeoutExceeded)
    ));
    assert_eq!(Metriful::wait_for_ready_timeout(false, u64::MAX, None).unwrap(), WaitStep::Poll(10));
    assert_eq!(Metriful::wait_for_not_ready_timeout(false, 0, None).unwrap(), WaitStep::Reached);
    assert!(matches!(
        Metriful::wait_for_not_ready_timeout(true, 20, Some(0)),
        Err(MetrifulError::ReadyTimeoutExceeded)
    ));
}

#[test]
fn interval_strategy_ends_after_first_error() {
    let s = Metriful::new();
    let mut it = s.read_iter(metric_temperature(), 3000);
    assert_eq!(it.sleep_before_measurement(1000), 2000);
    assert_eq!(it.sleep_before_measurement(3500), 0);
    let t = Timestamp { millis: 0 };
    let ok = metric_temperature().decode(&vec![vec![20, 0]], t);
    assert!(matches!(it.record(ok), Some(Ok(_))));
    assert!(!it.is_finished());
    let failed = it.record(Err(MetrifulError::NotReady));
    assert!(matches!(failed, Some(Err(MetrifulError::NotReady))));
    assert!(it.is_finished());
    for _ in 0..5 {
        let ok = metric_temperature().decode(&vec![vec![20, 0]], t);
        assert!(it.record(ok).is_none());
        assert!(it.record(Err(MetrifulError::StatusMissing)).is_none());
    }
}

#[test]
fn cycle_strategy_steps_and_ends_after_first_error() {
    let s = Metriful::new();
    let mut it = s.cycle_read_iter_timeout(metric_temperature(), CyclePeriod::Period1, Some(3000));
    assert_eq!(
        it.next_step(),
        Some(CycleStep::EnterCycle(OperationalMode::Cycle(CyclePeriod::Period1)))
    );
    it.entered();
    let t = Timestamp { millis: 0 };
    let ok = metric_temperature().decode(&vec![vec![20, 0]], t);
    assert!(matches!(it.record(ok), Some(Ok(_))));
    assert_eq!(it.next_step(), Some(CycleStep::AwaitNextCycle));
    assert!(matches!(
        it.record(Err(MetrifulError::ReadyTimeoutExceeded)),
        Some(Err(MetrifulError::ReadyTimeoutExceeded))
    ));
    for _ in 0..5 {
        assert_eq!(it.next_step(), None);
        assert!(it.record(Err(MetrifulError::NotReady)).is_none());
    }
}

#[test]
fn background_loop_decisions() {
    let ok: Result<u8, MetrifulError> = Ok(1);
    let err: Result<u8, MetrifulError> = Err(MetrifulError::NotReady);
    assert_eq!(background_step(true, &ok), BackgroundStep::Stop);
    assert_eq!(background_step(true, &err), BackgroundStep::Stop);
    assert_eq!(background_step(false, &ok), BackgroundStep::Send);
    assert_eq!(background_step(false, &err), BackgroundStep::SendAndStop);
}

#[test]
fn fixed_step_orders() {
    let target = OperationalMode::Cycle(CyclePeriod::Period2);
    assert_eq!(
        Metriful::set_mode_steps(target),
        vec![
            ModeChangeStep::WaitReady,
            ModeChangeStep::ReadStatus,
            ModeChangeStep::RunPlan(target),
            ModeChangeStep::WaitReady,
            ModeChangeStep::ReadStatus,
        ]
    );
    let it = Metriful::new().read_iter(metric_temperature(), 2000);
    assert_eq!(
        it.steps(),
        vec![
            MeasurementStep::WaitReady,
            MeasurementStep::SleepRemainder,
            MeasurementStep::Trigger,
            MeasurementStep::WaitReady,
            MeasurementStep::ReadMetric,
        ]
    );
}
