//! The continuous read strategies: interval-corrected on-demand polling,
//! cycle-mode consumption, and the decisions of the background variant.
//!
//! Each strategy is a state machine: the caller asks it what to do next,
//! carries out the bus work, and hands the outcome back, receiving the item
//! to yield. A strategy ends at its first failure: it yields the error once
//! and nothing after it.
use vstd::prelude::*;

use crate::error::{MetrifulError, Result};
use crate::metric::Metric;
use crate::session::Metriful;
use crate::status::{CyclePeriod, OperationalMode};
use crate::unit::{MetrifulUnit, UnitValue};

verus! {

/// What a read sequence yields for a step with `outcome`, when `finished`
/// says whether it had already ended: nothing once ended, else the outcome.
pub open spec fn spec_yield<T>(finished: bool, outcome: Result<T>) -> Option<Result<T>> {
    if finished {
        None
    } else {
        Some(outcome)
    }
}

/// Whether a read sequence has ended after a step with `outcome`: it ends
/// at the first failure and stays ended.
pub open spec fn spec_ended_after<T>(finished: bool, outcome: Result<T>) -> bool {
    finished || outcome is Err
}

/// The items that a read sequence yields for the step outcomes `outcomes`,
/// starting ended or not as `finished` says.
pub open spec fn spec_run<T>(finished: bool, outcomes: Seq<Result<T>>) -> Seq<Option<Result<T>>>
    decreases outcomes.len(),
{
    if outcomes.len() == 0 {
        seq![]
    } else {
        seq![spec_yield(finished, outcomes[0])] + spec_run(
            spec_ended_after(finished, outcomes[0]),
            outcomes.drop_first(),
        )
    }
}

/// An ended read sequence yields nothing, whatever the outcomes.
proof fn lemma_ended_run_is_empty<T>(outcomes: Seq<Result<T>>)
    ensures
        spec_run(true, outcomes) == Seq::new(outcomes.len(), |i: int| None::<Result<T>>),
    decreases outcomes.len(),
{
    if outcomes.len() > 0 {
        lemma_ended_run_is_empty(outcomes.drop_first());
    }
    assert(spec_run(true, outcomes) =~= Seq::new(outcomes.len(), |i: int| None::<Result<T>>));
}

/// A read sequence ends at its first failure: the failing step yields the
/// error exactly once, and every later step, however many and whatever
/// their outcomes, yields nothing.
pub proof fn lemma_read_sequence_ends_at_failure<T>(e: MetrifulError, later: Seq<Result<T>>)
    ensures
        spec_run(false, seq![Err(e)] + later) == seq![Some(Err::<T, MetrifulError>(e))] + Seq::new(
            later.len(),
            |i: int| None::<Result<T>>,
        ),
{
    let outcomes = seq![Err::<T, MetrifulError>(e)] + later;
    assert(outcomes.drop_first() =~= later);
    lemma_ended_run_is_empty(later);
}

/// One stage of a step of the interval strategy, in the order
/// [`MetricReadIterator::steps`] gives.
#[derive(Debug, Clone, Copy, PartialEq, Eq, Structural)]
pub enum MeasurementStep {
    /// Wait for the ready line, within the strategy's timeout.
    WaitReady,
    /// Sleep what [`MetricReadIterator::sleep_before_measurement`] says, and
    /// note the time as the start of this step.
    SleepRemainder,
    /// Trigger an on-demand measurement.
    Trigger,
    /// Read the metric; its outcome is the step's outcome.
    ReadMetric,
}

/// Repeated on-demand measurements at a fixed interval.
///
/// Each step waits for ready, sleeps what remains of the interval since the
/// previous step began (nothing if it is already overdue), triggers a
/// measurement, waits for ready again and reads the metric. On-demand
/// measurements do not include air quality data.
pub struct MetricReadIterator<U: MetrifulUnit> {
    metric: Metric<U>,
    interval: u64,
    timeout: Option<u64>,
    error: bool,
}

impl<U: MetrifulUnit> MetricReadIterator<U> {
    /// Whether the sequence has ended.
    pub closed spec fn spec_finished(self) -> bool {
        self.error
    }

    /// The metric that is read.
    pub closed spec fn spec_metric(self) -> Metric<U> {
        self.metric
    }

    /// The interval between measurements, in milliseconds.
    pub closed spec fn spec_interval(self) -> u64 {
        self.interval
    }

    /// The timeout of each wait for ready, in milliseconds.
    pub closed spec fn spec_timeout(self) -> Option<u64> {
        self.timeout
    }

    /// The metric that is read.
    pub fn metric(&self) -> (r: Metric<U>)
        ensures
            r == self.spec_metric(),
    {
        self.metric
    }

    /// The timeout of each wait for ready, in milliseconds.
    pub fn timeout(&self) -> (r: Option<u64>)
        ensures
            r == self.spec_timeout(),
    {
        self.timeout
    }

    /// Whether the sequence has ended; no bus work is due once it has.
    pub fn is_finished(&self) -> (r: bool)
        ensures
            r == self.spec_finished(),
    {
        self.error
    }

    /// The stages of one step: wait for ready, sleep the rest of the
    /// interval, trigger a measurement, wait for ready again, read.
    pub fn steps(&self) -> (r: Vec<MeasurementStep>)
        ensures
            r@ == seq![
                MeasurementStep::WaitReady,
                MeasurementStep::SleepRemainder,
                MeasurementStep::Trigger,
                MeasurementStep::WaitReady,
                MeasurementStep::ReadMetric,
            ],
    {
        let r = vec![
            MeasurementStep::WaitReady,
            MeasurementStep::SleepRemainder,
            MeasurementStep::Trigger,
            MeasurementStep::WaitReady,
            MeasurementStep::ReadMetric,
        ];
        assert(r@ =~= seq![
            MeasurementStep::WaitReady,
            MeasurementStep::SleepRemainder,
            MeasurementStep::Trigger,
            MeasurementStep::WaitReady,
            MeasurementStep::ReadMetric,
        ]);
        r
    }

    /// The milliseconds to sleep before triggering the measurement, when
    /// `elapsed` milliseconds have passed since the previous step began.
    pub fn sleep_before_measurement(&self, elapsed: u64) -> (r: u64)
        ensures
            r == (if elapsed < self.spec_interval() { self.spec_interval() - elapsed } else { 0 }),
    {
        if elapsed < self.interval {
            self.interval - elapsed
        } else {
            0
        }
    }

    /// Takes in the outcome of one step and returns the item to yield.
    pub fn record(&mut self, outcome: Result<UnitValue<U>>) -> (r: Option<Result<UnitValue<U>>>)
        ensures
            r == spec_yield(old(self).spec_finished(), outcome),
            final(self).spec_finished() == spec_ended_after(old(self).spec_finished(), outcome),
            final(self).spec_metric() == old(self).spec_metric(),
            final(self).spec_interval() == old(self).spec_interval(),
            final(self).spec_timeout() == old(self).spec_timeout(),
    {
        if self.error {
            return None;
        }
        if outcome.is_err() {
            self.error = true;
        }
        Some(outcome)
    }
}

/// What a cycle read strategy does next.
#[derive(Debug, Clone, Copy, PartialEq, Eq, Structural)]
pub enum CycleStep {
    /// Switch the device to this mode, then read once at once.
    EnterCycle(OperationalMode),
    /// Wait for the ready line to drop (a new cycle has begun), then for it
    /// to rise (its measurement is done), then read.
    AwaitNextCycle,
}

/// Repeated reads with the device in cycle mode.
///
/// The first step switches the device to the cycle mode and reads once at
/// once; each later step waits for the next cycle to complete and reads. A
/// later step must begin before the current cycle ends, or a measurement is
/// skipped.
pub struct CycleReadIterator<U: MetrifulUnit> {
    metric: Metric<U>,
    cycle_period: CyclePeriod,
    timeout: Option<u64>,
    first: bool,
    error: bool,
}

impl<U: MetrifulUnit> CycleReadIterator<U> {
    /// The metric that is read.
    pub closed spec fn spec_metric(self) -> Metric<U> {
        self.metric
    }

    /// The cycle period the device is kept in.
    pub closed spec fn spec_cycle_period(self) -> CyclePeriod {
        self.cycle_period
    }

    /// The timeout of each wait and mode change, in milliseconds.
    pub closed spec fn spec_timeout(self) -> Option<u64> {
        self.timeout
    }

    /// The metric that is read.
    pub fn metric(&self) -> (r: Metric<U>)
        ensures
            r == self.spec_metric(),
    {
        self.metric
    }

    /// The timeout of each wait and mode change, in milliseconds.
    pub fn timeout(&self) -> (r: Option<u64>)
        ensures
            r == self.spec_timeout(),
    {
        self.timeout
    }

    /// Whether the sequence has ended.
    pub closed spec fn spec_finished(self) -> bool {
        self.error
    }

    /// Whether the device still has to be switched to the cycle mode.
    pub closed spec fn spec_first(self) -> bool {
        self.first
    }

    /// The next step, or none once the sequence has ended.
    pub fn next_step(&self) -> (r: Option<CycleStep>)
        ensures
            self.spec_finished() ==> r is None,
            !self.spec_finished() && self.spec_first() ==> r == Some(
                CycleStep::EnterCycle(OperationalMode::Cycle(self.spec_cycle_period())),
            ),
            !self.spec_finished() && !self.spec_first() ==> r == Some(CycleStep::AwaitNextCycle),
    {
        if self.error {
            None
        } else if self.first {
            Some(CycleStep::EnterCycle(OperationalMode::Cycle(self.cycle_period)))
        } else {
            Some(CycleStep::AwaitNextCycle)
        }
    }

    /// Notes that the device was switched to the cycle mode.
    pub fn entered(&mut self)
        ensures
            !final(self).spec_first(),
            final(self).spec_finished() == old(self).spec_finished(),
            final(self).spec_metric() == old(self).spec_metric(),
            final(self).spec_cycle_period() == old(self).spec_cycle_period(),
            final(self).spec_timeout() == old(self).spec_timeout(),
    {
        self.first = false;
    }

    /// Takes in the outcome of one step (a failed mode change included) and
    /// returns the item to yield.
    pub fn record(&mut self, outcome: Result<UnitValue<U>>) -> (r: Option<Result<UnitValue<U>>>)
        ensures
            r == spec_yield(old(self).spec_finished(), outcome),
            final(self).spec_finished() == spec_ended_after(old(self).spec_finished(), outcome),
            final(self).spec_first() == old(self).spec_first(),
            final(self).spec_metric() == old(self).spec_metric(),
            final(self).spec_cycle_period() == old(self).spec_cycle_period(),
            final(self).spec_timeout() == old(self).spec_timeout(),
    {
        if self.error {
            return None;
        }
        if outcome.is_err() {
            self.error = true;
        }
        Some(outcome)
    }
}

/// What the background loop does with one item of its cycle reads.
#[derive(Debug, Clone, Copy, PartialEq, Eq, Structural)]
pub enum BackgroundStep {
    /// A stop was requested: end the loop and hand the session back.
    Stop,
    /// Send the item and go on (end if the receiver is gone).
    Send,
    /// Send the item, an error, and end the loop.
    SendAndStop,
}

/// The decision of the background loop for one item: a stop request, seen
/// once per iteration, ends it before the item is sent; an error is sent and
/// ends it; a reading is sent.
pub open spec fn spec_background_step<T>(stop_requested: bool, item: Result<T>) -> BackgroundStep {
    if stop_requested {
        BackgroundStep::Stop
    } else if item is Err {
        BackgroundStep::SendAndStop
    } else {
        BackgroundStep::Send
    }
}

/// Decides what the background loop does with one item.
pub fn background_step<T>(stop_requested: bool, item: &Result<T>) -> (r: BackgroundStep)
    ensures
        r == spec_background_step(stop_requested, *item),
{
    if stop_requested {
        BackgroundStep::Stop
    } else if item.is_err() {
        BackgroundStep::SendAndStop
    } else {
        BackgroundStep::Send
    }
}

impl Metriful {
    /// An interval read strategy for `metric`, every `interval`
    /// milliseconds, each wait for ready bounded by `timeout`.
    pub fn read_iter_timeout<U: MetrifulUnit>(&self, metric: Metric<U>, interval: u64, timeout: Option<u64>) -> (r: MetricReadIterator<U>)
        ensures
            !r.spec_finished(),
            r.spec_metric() == metric,
            r.spec_interval() == interval,
            r.spec_timeout() == timeout,
    {
        MetricReadIterator { metric, interval, timeout, error: false }
    }

    /// An interval read strategy for `metric` whose waits have no timeout.
    pub fn read_iter<U: MetrifulUnit>(&self, metric: Metric<U>, interval: u64) -> (r: MetricReadIterator<U>)
        ensures
            !r.spec_finished(),
            r.spec_metric() == metric,
            r.spec_interval() == interval,
            r.spec_timeout() is None,
    {
        self.read_iter_timeout(metric, interval, None)
    }

    /// A cycle read strategy for `metric` with the device in `cycle_period`.
    pub fn cycle_read_iter_timeout<U: MetrifulUnit>(&self, metric: Metric<U>, cycle_period: CyclePeriod, timeout: Option<u64>) -> (r: CycleReadIterator<U>)
        ensures
            !r.spec_finished(),
            r.spec_first(),
            r.spec_metric() == metric,
            r.spec_cycle_period() == cycle_period,
            r.spec_timeout() == timeout,
    {
        CycleReadIterator { metric, cycle_period, timeout, first: true, error: false }
    }
}

} // verus!
