//! The device session: the cached status and the decisions of every
//! operation, expressed as the bus commands and waits to carry out.
use vstd::prelude::*;

use crate::error::{MetrifulError, Result};
use crate::status::{spec_status_step, CyclePeriod, DeviceStatus, OperationalMode, StatusStep};

verus! {

/// Command byte: trigger an on-demand measurement (standby mode only).
pub const MEASURE_COMMAND: u8 = 0xE1;
/// Command byte: software reset.
pub const RESET_COMMAND: u8 = 0xE2;
/// Command byte: enter cycle mode.
pub const CYCLE_MODE_COMMAND: u8 = 0xE4;
/// Command byte: enter standby mode.
pub const STANDBY_MODE_COMMAND: u8 = 0xE5;
/// Command byte: clear the light interrupt.
pub const CLEAR_LIGHT_INTERRUPT_COMMAND: u8 = 0xE6;
/// Command byte: clear the sound interrupt.
pub const CLEAR_SOUND_INTERRUPT_COMMAND: u8 = 0xE7;
/// Register that selects the cycle period; written before entering cycle mode.
pub const CYCLE_PERIOD_SELECT_REGISTER: u8 = 0x89;
/// Minimum time, in milliseconds, between dependent writes.
pub const WRITE_SETTLE_MILLIS: u64 = 6;

/// One step of bus traffic or timing that an operation asks to be carried out.
#[derive(Debug, Clone, Copy, PartialEq, Eq, Structural)]
pub enum Command {
    /// Write a command byte.
    Write(u8),
    /// Write `value` to `register`.
    WriteRegister { register: u8, value: u8 },
    /// Sleep for this many milliseconds.
    Sleep(u64),
    /// Wait until the ready line is asserted, within the operation's timeout.
    WaitReady,
}

/// One stage of a mode change, in the order [`Metriful::set_mode_steps`] gives.
#[derive(Debug, Clone, Copy, PartialEq, Eq, Structural)]
pub enum ModeChangeStep {
    /// Wait for the ready line, within the operation's timeout.
    WaitReady,
    /// Read the device status.
    ReadStatus,
    /// Carry out the commands of [`Metriful::set_mode_timeout`] for this mode.
    RunPlan(OperationalMode),
}

/// The outcome of one poll of the ready line.
#[derive(Debug, Clone, Copy, PartialEq, Eq, Structural)]
pub enum WaitStep {
    /// The line has the awaited level.
    Reached,
    /// Sleep this many milliseconds, then poll again.
    Poll(u64),
}

/// The decision after one poll of the ready line: `level` is what was read,
/// `wanted` the awaited level, `elapsed` the milliseconds since the wait began.
pub open spec fn spec_wait_step(level: bool, wanted: bool, elapsed: u64, timeout: Option<u64>) -> Result<WaitStep> {
    if level == wanted {
        Ok(WaitStep::Reached)
    } else if timeout matches Some(t) && elapsed > t {
        Err(MetrifulError::ReadyTimeoutExceeded)
    } else {
        Ok(WaitStep::Poll(crate::READY_POLL_INTERVAL))
    }
}

fn wait_step(level: bool, wanted: bool, elapsed: u64, timeout: Option<u64>) -> (r: Result<WaitStep>)
    ensures
        r == spec_wait_step(level, wanted, elapsed, timeout),
{
    if level == wanted {
        return Ok(WaitStep::Reached);
    }
    match timeout {
        Some(t) if elapsed > t => Err(MetrifulError::ReadyTimeoutExceeded),
        _ => Ok(WaitStep::Poll(crate::READY_POLL_INTERVAL)),
    }
}

/// The commands that switch the device to `mode`, assuming the switch is
/// allowed: for standby, the standby command; for a cycle, the period
/// register, the settle time, the cycle command and the mode's ready latency.
pub open spec fn spec_naive_plan(mode: OperationalMode) -> Seq<Command> {
    match mode {
        OperationalMode::Standby => seq![Command::Write(STANDBY_MODE_COMMAND)],
        OperationalMode::Cycle(p) => seq![
            Command::WriteRegister { register: CYCLE_PERIOD_SELECT_REGISTER, value: p.spec_value() },
            Command::Sleep(WRITE_SETTLE_MILLIS),
            Command::Write(CYCLE_MODE_COMMAND),
            Command::Sleep(mode.spec_ready_millis()),
        ],
    }
}

/// The commands that take the device from mode `current` to mode `target`:
/// none if they are equal; the direct switch between standby and a cycle;
/// and between two different cycles, standby first, a wait for ready, then
/// the new cycle.
pub open spec fn spec_mode_plan(current: OperationalMode, target: OperationalMode) -> Seq<Command> {
    if current == target {
        seq![]
    } else if target.spec_switch_allowed(current) {
        spec_naive_plan(target)
    } else {
        spec_naive_plan(OperationalMode::Standby) + seq![Command::WaitReady] + spec_naive_plan(target)
    }
}

/// The commands of a single command byte followed by the settle time.
pub open spec fn spec_command_plan(command: u8) -> Seq<Command> {
    seq![Command::Write(command), Command::Sleep(WRITE_SETTLE_MILLIS)]
}

fn command_plan(command: u8) -> (r: Vec<Command>)
    ensures
        r@ == spec_command_plan(command),
{
    let r = vec![Command::Write(command), Command::Sleep(WRITE_SETTLE_MILLIS)];
    assert(r@ =~= spec_command_plan(command));
    r
}

/// A Metriful MS430 session: the last known device status and the rules
/// for every command. The bus and the ready line belong to the caller, who
/// carries out the commands that the session returns.
#[derive(Debug, Clone, Copy)]
pub struct Metriful {
    status: Option<DeviceStatus>,
}

impl Metriful {
    /// The last status read from the device, if any.
    pub closed spec fn spec_status(self) -> Option<DeviceStatus> {
        self.status
    }

    /// A session that has not read the device status yet.
    pub fn new() -> (r: Metriful)
        ensures
            r.spec_status() is None,
    {
        Metriful { status: None }
    }

    /// The last status read from the device, if any.
    pub fn status(&self) -> (r: Option<DeviceStatus>)
        ensures
            r == self.spec_status(),
    {
        self.status
    }

    /// Returns true if the device is known to be in standby mode.
    pub fn is_mode_standby(&self) -> (r: bool)
        ensures
            r == (self.spec_status() matches Some(s) && s.mode is Standby),
    {
        match &self.status {
            Some(status) => matches!(status.mode, OperationalMode::Standby),
            None => false,
        }
    }

    /// Returns true if the device is known to be in some cycle mode.
    pub fn is_mode_cycle(&self) -> (r: bool)
        ensures
            r == (self.spec_status() matches Some(s) && s.mode is Cycle),
    {
        match &self.status {
            Some(status) => matches!(status.mode, OperationalMode::Cycle(_)),
            None => false,
        }
    }

    /// Ensures the device is ready, given the level `ready` of its ready line.
    pub fn ensure_ready(&self, ready: bool) -> (r: Result<()>)
        ensures
            ready ==> r is Ok,
            !ready ==> r == Err::<(), MetrifulError>(MetrifulError::NotReady),
    {
        if ready {
            Ok(())
        } else {
            Err(MetrifulError::NotReady)
        }
    }

    /// One poll of a wait for the ready line to be asserted: `ready` is the
    /// level read, `elapsed` the milliseconds since the wait began. Reached
    /// as soon as the line is asserted; otherwise an error once `timeout` is
    /// exceeded, or a poll again after the poll interval.
    pub fn wait_for_ready_timeout(ready: bool, elapsed: u64, timeout: Option<u64>) -> (r: Result<WaitStep>)
        ensures
            r == spec_wait_step(ready, true, elapsed, timeout),
    {
        wait_step(ready, true, elapsed, timeout)
    }

    /// One poll of a wait for the ready line to be deasserted, as at the
    /// start of a new cycle; otherwise as [`Metriful::wait_for_ready_timeout`].
    pub fn wait_for_not_ready_timeout(ready: bool, elapsed: u64, timeout: Option<u64>) -> (r: Result<WaitStep>)
        ensures
            r == spec_wait_step(ready, false, elapsed, timeout),
    {
        wait_step(ready, false, elapsed, timeout)
    }

    /// Takes in the bytes of a status read so far and returns the next
    /// register to read or the outcome; a decoded status becomes the last
    /// known status.
    pub fn read_status(&mut self, answers: &[u8]) -> (r: StatusStep)
        ensures
            r == spec_status_step(answers@),
            final(self).spec_status() == (match r {
                StatusStep::Done(Ok(s)) => Some(s),
                _ => old(self).spec_status(),
            }),
    {
        let r = DeviceStatus::read(answers);
        if let StatusStep::Done(Ok(s)) = &r {
            self.status = Some(*s);
        }
        r
    }

    /// The reset sequence, given the level `ready` of the ready line: the
    /// device must be ready; then the reset command, the settle time and a
    /// wait for ready, after which the status is to be read again.
    pub fn reset(&self, ready: bool) -> (r: Result<Vec<Command>>)
        ensures
            !ready ==> r == Err::<Vec<Command>, MetrifulError>(MetrifulError::NotReady),
            ready ==> (r matches Ok(c) && c@ == spec_command_plan(RESET_COMMAND).push(
                Command::WaitReady,
            )),
    {
        self.ensure_ready(ready)?;
        let mut c = command_plan(RESET_COMMAND);
        c.push(Command::WaitReady);
        Ok(c)
    }

    /// The command that clears the light interrupt; the device must be ready.
    pub fn clear_light_interrupt(&self, ready: bool) -> (r: Result<Vec<Command>>)
        ensures
            !ready ==> r == Err::<Vec<Command>, MetrifulError>(MetrifulError::NotReady),
            ready ==> (r matches Ok(c) && c@ == spec_command_plan(CLEAR_LIGHT_INTERRUPT_COMMAND)),
    {
        self.ensure_ready(ready)?;
        Ok(command_plan(CLEAR_LIGHT_INTERRUPT_COMMAND))
    }

    /// The command that clears the sound interrupt; the device must be ready.
    pub fn clear_sound_interrupt(&self, ready: bool) -> (r: Result<Vec<Command>>)
        ensures
            !ready ==> r == Err::<Vec<Command>, MetrifulError>(MetrifulError::NotReady),
            ready ==> (r matches Ok(c) && c@ == spec_command_plan(CLEAR_SOUND_INTERRUPT_COMMAND)),
    {
        self.ensure_ready(ready)?;
        Ok(command_plan(CLEAR_SOUND_INTERRUPT_COMMAND))
    }

    /// The outcome of an on-demand measurement request, given the level
    /// `ready` of the ready line: a status must have been read, and show
    /// standby mode, and the device must be ready; then the measurement
    /// command and the settle time.
    pub open spec fn spec_execute_measurement(self, ready: bool) -> Result<Seq<Command>> {
        match self.spec_status() {
            None => Err(MetrifulError::StatusMissing),
            Some(s) => if !(s.mode is Standby) {
                Err(MetrifulError::InvalidMode { current: s.mode, required: OperationalMode::Standby })
            } else if !ready {
                Err(MetrifulError::NotReady)
            } else {
                Ok(spec_command_plan(MEASURE_COMMAND))
            },
        }
    }

    /// Executes an on-demand measurement: checks the cached status and the
    /// ready line, and returns the commands to send.
    pub fn execute_measurement(&self, ready: bool) -> (r: Result<Vec<Command>>)
        ensures
            match (r, self.spec_execute_measurement(ready)) {
                (Ok(c), Ok(s)) => c@ == s,
                (Err(e), Err(f)) => e == f,
                _ => false,
            },
    {
        let status = match &self.status {
            Some(status) => status,
            None => return Err(MetrifulError::StatusMissing),
        };
        if !matches!(status.mode, OperationalMode::Standby) {
            return Err(
                MetrifulError::InvalidMode { current: status.mode, required: OperationalMode::Standby },
            );
        }
        self.ensure_ready(ready)?;
        Ok(command_plan(MEASURE_COMMAND))
    }

    /// The commands that switch the device to `mode` directly, without
    /// checking that the switch is allowed.
    fn set_mode_naive(mode: OperationalMode) -> (r: Vec<Command>)
        ensures
            r@ == spec_naive_plan(mode),
    {
        match mode {
            OperationalMode::Standby => {
                let r = vec![Command::Write(STANDBY_MODE_COMMAND)];
                assert(r@ =~= spec_naive_plan(mode));
                r
            },
            OperationalMode::Cycle(period) => {
                let r = vec![
                    Command::WriteRegister { register: CYCLE_PERIOD_SELECT_REGISTER, value: period.to_value() },
                    Command::Sleep(WRITE_SETTLE_MILLIS),
                    Command::Write(CYCLE_MODE_COMMAND),
                    Command::Sleep(mode.ready_duration()),
                ];
                assert(r@ =~= spec_naive_plan(mode));
                r
            },
        }
    }

    /// The stages of a change to `mode`: wait for ready, read the current
    /// status, carry out the commands planned from it, wait for ready once
    /// more and read the fresh status, which is the outcome.
    pub fn set_mode_steps(mode: OperationalMode) -> (r: Vec<ModeChangeStep>)
        ensures
            r@ == seq![
                ModeChangeStep::WaitReady,
                ModeChangeStep::ReadStatus,
                ModeChangeStep::RunPlan(mode),
                ModeChangeStep::WaitReady,
                ModeChangeStep::ReadStatus,
            ],
    {
        let r = vec![
            ModeChangeStep::WaitReady,
            ModeChangeStep::ReadStatus,
            ModeChangeStep::RunPlan(mode),
            ModeChangeStep::WaitReady,
            ModeChangeStep::ReadStatus,
        ];
        assert(r@ =~= seq![
            ModeChangeStep::WaitReady,
            ModeChangeStep::ReadStatus,
            ModeChangeStep::RunPlan(mode),
            ModeChangeStep::WaitReady,
            ModeChangeStep::ReadStatus,
        ]);
        r
    }

    /// Changes the operational mode: given the freshly read status, returns
    /// the commands that take the device from its current mode to `mode`.
    /// The caller waits for ready before and after them, and reads the
    /// status again.
    pub fn set_mode_timeout(&self, mode: OperationalMode) -> (r: Result<Vec<Command>>)
        ensures
            self.spec_status() is None ==> r == Err::<Vec<Command>, MetrifulError>(MetrifulError::StatusMissing),
            self.spec_status() matches Some(s) ==> (r matches Ok(c) && c@ == spec_mode_plan(s.mode, mode)),
    {
        let current = match &self.status {
            Some(status) => status.mode,
            None => return Err(MetrifulError::StatusMissing),
        };
        if current == mode {
            Ok(Vec::new())
        } else if mode.is_switch_allowed(current) {
            Ok(Self::set_mode_naive(mode))
        } else {
            let mut c = Self::set_mode_naive(OperationalMode::Standby);
            c.push(Command::WaitReady);
            let mut rest = Self::set_mode_naive(mode);
            c.append(&mut rest);
            proof {
                assert(c@ =~= spec_mode_plan(current, mode));
            }
            Ok(c)
        }
    }
}

/// The commands of `plan` that write to the bus.
pub open spec fn spec_writes(plan: Seq<Command>) -> Seq<Command> {
    plan.filter(|c: Command| c is Write || c is WriteRegister)
}

/// The mode of a device that follows the command protocol, after it runs
/// `commands` starting in `mode` with `period` last written to the cycle
/// period register: the standby command enters standby, the cycle command
/// enters the cycle that the register selects, and a write to the register
/// selects a period.
pub open spec fn spec_device_mode(mode: OperationalMode, period: u8, commands: Seq<Command>) -> OperationalMode
    decreases commands.len(),
{
    if commands.len() == 0 {
        mode
    } else {
        let rest = commands.drop_first();
        match commands[0] {
            Command::Write(c) => if c == STANDBY_MODE_COMMAND {
                spec_device_mode(OperationalMode::Standby, period, rest)
            } else if c == CYCLE_MODE_COMMAND {
                match CyclePeriod::spec_from_value(period) {
                    Ok(p) => spec_device_mode(OperationalMode::Cycle(p), period, rest),
                    Err(_) => spec_device_mode(mode, period, rest),
                }
            } else {
                spec_device_mode(mode, period, rest)
            },
            Command::WriteRegister { register, value } => if register == CYCLE_PERIOD_SELECT_REGISTER {
                spec_device_mode(mode, value, rest)
            } else {
                spec_device_mode(mode, period, rest)
            },
            _ => spec_device_mode(mode, period, rest),
        }
    }
}

/// The commands for a mode change take a device that follows them from any
/// mode to the requested one.
pub proof fn lemma_mode_plan_reaches_target(current: OperationalMode, target: OperationalMode, period: u8)
    ensures
        spec_device_mode(current, period, spec_mode_plan(current, target)) == target,
{
    let plan = spec_mode_plan(current, target);
    reveal_with_fuel(spec_device_mode, 7);
    if current == target {
    } else if target.spec_switch_allowed(current) {
        match target {
            OperationalMode::Standby => {
                assert(plan.drop_first() =~= Seq::<Command>::empty());
            },
            OperationalMode::Cycle(b) => {
                assert(plan.drop_first().drop_first().drop_first().drop_first() =~= Seq::<Command>::empty());
            },
        }
    } else {
        assert(current is Cycle && target is Cycle);
        let b = target->Cycle_0;
        assert(plan =~= seq![
            Command::Write(STANDBY_MODE_COMMAND),
            Command::WaitReady,
            Command::WriteRegister { register: CYCLE_PERIOD_SELECT_REGISTER, value: b.spec_value() },
            Command::Sleep(WRITE_SETTLE_MILLIS),
            Command::Write(CYCLE_MODE_COMMAND),
            Command::Sleep(target.spec_ready_millis()),
        ]);
        assert(plan.drop_first().drop_first().drop_first().drop_first().drop_first().drop_first()
            =~= Seq::<Command>::empty());
    }
}

/// Setting the mode is idempotent: after the commands of a first change to
/// `target`, a device that follows them is in `target`, so a second change
/// to it plans no command, and no write reaches the bus.
pub proof fn lemma_set_mode_idempotent(current: OperationalMode, target: OperationalMode, period: u8)
    ensures
        ({
            let after = spec_device_mode(current, period, spec_mode_plan(current, target));
            &&& after == target
            &&& spec_mode_plan(after, target) == Seq::<Command>::empty()
            &&& spec_writes(spec_mode_plan(after, target)).len() == 0
        }),
{
    lemma_mode_plan_reaches_target(current, target, period);
    assert(spec_writes(Seq::<Command>::empty()) =~= Seq::<Command>::empty());
}

/// Changing between two different cycle periods passes through standby:
/// the standby command is the first command, and the cycle command comes
/// only after it (and after a wait for ready).
pub proof fn lemma_cycle_change_passes_standby(a: CyclePeriod, b: CyclePeriod)
    requires
        a != b,
    ensures
        ({
            let plan = spec_mode_plan(OperationalMode::Cycle(a), OperationalMode::Cycle(b));
            &&& plan[0] == Command::Write(STANDBY_MODE_COMMAND)
            &&& plan[1] == Command::WaitReady
            &&& plan[4] == Command::Write(CYCLE_MODE_COMMAND)
            &&& forall|i: int| 0 <= i < 4 ==> plan[i] != Command::Write(CYCLE_MODE_COMMAND)
            &&& plan.len() == 6
        }),
{
    let plan = spec_mode_plan(OperationalMode::Cycle(a), OperationalMode::Cycle(b));
    assert(!OperationalMode::Cycle(b).spec_switch_allowed(OperationalMode::Cycle(a)));
    assert(plan =~= seq![
        Command::Write(STANDBY_MODE_COMMAND),
        Command::WaitReady,
        Command::WriteRegister { register: CYCLE_PERIOD_SELECT_REGISTER, value: b.spec_value() },
        Command::Sleep(WRITE_SETTLE_MILLIS),
        Command::Write(CYCLE_MODE_COMMAND),
        Command::Sleep(OperationalMode::Cycle(b).spec_ready_millis()),
    ]);
}

/// An on-demand measurement is refused without a cached status, and in
/// any cycle mode, whatever the ready line says.
pub proof fn lemma_measurement_needs_standby(session: Metriful, ready: bool)
    ensures
        session.spec_status() is None ==> session.spec_execute_measurement(ready) == Err::<
            Seq<Command>,
            MetrifulError,
        >(MetrifulError::StatusMissing),
        session.spec_status() matches Some(s) ==> (s.mode is Cycle
            ==> session.spec_execute_measurement(ready) == Err::<Seq<Command>, MetrifulError>(
            MetrifulError::InvalidMode { current: s.mode, required: OperationalMode::Standby },
        )),
{
}

} // verus!
