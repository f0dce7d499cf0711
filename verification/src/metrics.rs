//! The metrics buffer: bounded histories and deadline-miss counters.
//!
//! Readings and actuator states are real-valued in the running system. The
//! buffer stores them without looking at them, so their type is a parameter.

use vstd::prelude::*;
use vstd::wrapping::u64_specs::wrapping_add;
use std::collections::VecDeque;
use vstd::string::StringExecFns;
use crate::sensor::SensorType;
use crate::text::{
    count_char, decimal, lemma_count_concat, lemma_decimal_digits_only, push_decimal,
};

verus! {

/// The most points a history keeps.
pub const MAX_POINTS: usize = 1_000;

/// The component a missed deadline is charged to.
#[derive(Debug, Clone, Copy, PartialEq, Eq, Structural)]
pub enum DeadlineComponent {
    Sensor,
    Processor,
    Actuator,
}

/// The actuator a processed sample is meant for.
#[derive(Debug, Clone, Copy, PartialEq, Eq, Structural)]
pub enum ActuatorType {
    Gripper,
    Motor,
    Stabiliser,
}

/// A history after it has taken one more value: the oldest value leaves first
/// when the history is full.
pub open spec fn capped_push<T>(history: Seq<T>, val: T) -> Seq<T> {
    if history.len() >= MAX_POINTS {
        history.subrange(1, history.len() as int).push(val)
    } else {
        history.push(val)
    }
}

/// Appends `val` to `buf`; a buffer that already holds `MAX_POINTS` values
/// gives up its oldest one first.
pub fn push_capped<T>(buf: &mut VecDeque<T>, val: T)
    ensures
        final(buf)@ == capped_push(old(buf)@, val),
        old(buf)@.len() <= MAX_POINTS ==> final(buf)@.len() <= MAX_POINTS,
{
    if buf.len() >= MAX_POINTS {
        buf.pop_front();
    }
    buf.push_back(val);
}

/// `push_capped` for the histories of microsecond counts.
pub fn push_capped_u64(buf: &mut VecDeque<u64>, val: u64)
    ensures
        final(buf)@ == capped_push(old(buf)@, val),
        old(buf)@.len() <= MAX_POINTS ==> final(buf)@.len() <= MAX_POINTS,
{
    push_capped(buf, val);
}

/// The metrics buffer. `R` is the type of a reading.
#[derive(Debug, Clone)]
pub struct Metrics<R> {
    /// Sensor readings, newest last.
    pub force: VecDeque<R>,
    pub position: VecDeque<R>,
    pub temperature: VecDeque<R>,
    /// Actuator states, newest last.
    pub gripper: VecDeque<R>,
    pub motor: VecDeque<R>,
    pub stabiliser: VecDeque<R>,
    /// Cycle latencies and release jitter, in microseconds.
    pub latency_us: VecDeque<u64>,
    pub jitter_us: VecDeque<u64>,
    /// Missed deadlines by component.
    pub miss_sensor: u64,
    pub miss_processor: u64,
    pub miss_actuator: u64,
    /// Missed deadlines of all components together.
    pub deadline_miss: u64,
    pub total_cycles: u64,
    pub cpu_load_threads: usize,
}

/// The mathematical state of a metrics buffer.
pub struct MetricsState<R> {
    pub force: Seq<R>,
    pub position: Seq<R>,
    pub temperature: Seq<R>,
    pub gripper: Seq<R>,
    pub motor: Seq<R>,
    pub stabiliser: Seq<R>,
    pub latency_us: Seq<u64>,
    pub jitter_us: Seq<u64>,
    pub miss_sensor: u64,
    pub miss_processor: u64,
    pub miss_actuator: u64,
    pub deadline_miss: u64,
    pub total_cycles: u64,
    pub cpu_load_threads: usize,
}

impl<R> MetricsState<R> {
    /// Nothing recorded.
    pub open spec fn empty() -> MetricsState<R> {
        MetricsState {
            force: Seq::empty(),
            position: Seq::empty(),
            temperature: Seq::empty(),
            gripper: Seq::empty(),
            motor: Seq::empty(),
            stabiliser: Seq::empty(),
            latency_us: Seq::empty(),
            jitter_us: Seq::empty(),
            miss_sensor: 0,
            miss_processor: 0,
            miss_actuator: 0,
            deadline_miss: 0,
            total_cycles: 0,
            cpu_load_threads: 0,
        }
    }

    /// No history holds more than `MAX_POINTS` values.
    pub open spec fn bounded(self) -> bool {
        &&& self.force.len() <= MAX_POINTS
        &&& self.position.len() <= MAX_POINTS
        &&& self.temperature.len() <= MAX_POINTS
        &&& self.gripper.len() <= MAX_POINTS
        &&& self.motor.len() <= MAX_POINTS
        &&& self.stabiliser.len() <= MAX_POINTS
        &&& self.latency_us.len() <= MAX_POINTS
        &&& self.jitter_us.len() <= MAX_POINTS
    }

    /// The aggregate miss counter equals the sum of the three per-component
    /// counters, all counted modulo 2^64.
    pub open spec fn balanced(self) -> bool {
        self.deadline_miss == (self.miss_sensor + self.miss_processor + self.miss_actuator)
            % 0x1_0000_0000_0000_0000
    }

    /// The state after one more miss of `component`.
    pub open spec fn after_deadline_miss(self, component: DeadlineComponent) -> MetricsState<R> {
        let counted = MetricsState { deadline_miss: wrapping_add(self.deadline_miss, 1), ..self };
        match component {
            DeadlineComponent::Sensor => MetricsState {
                miss_sensor: wrapping_add(self.miss_sensor, 1),
                ..counted
            },
            DeadlineComponent::Processor => MetricsState {
                miss_processor: wrapping_add(self.miss_processor, 1),
                ..counted
            },
            DeadlineComponent::Actuator => MetricsState {
                miss_actuator: wrapping_add(self.miss_actuator, 1),
                ..counted
            },
        }
    }

    /// The state after a reading of sensor `kind` joined its history.
    pub open spec fn after_reading(self, kind: SensorType, val: R) -> MetricsState<R> {
        match kind {
            SensorType::Force => MetricsState { force: capped_push(self.force, val), ..self },
            SensorType::Position => MetricsState {
                position: capped_push(self.position, val),
                ..self
            },
            SensorType::Temperature => MetricsState {
                temperature: capped_push(self.temperature, val),
                ..self
            },
        }
    }

    /// The state after a state of `actuator` joined its history.
    pub open spec fn after_actuation(self, actuator: ActuatorType, val: R) -> MetricsState<R> {
        match actuator {
            ActuatorType::Gripper => MetricsState { gripper: capped_push(self.gripper, val), ..self },
            ActuatorType::Motor => MetricsState { motor: capped_push(self.motor, val), ..self },
            ActuatorType::Stabiliser => MetricsState {
                stabiliser: capped_push(self.stabiliser, val),
                ..self
            },
        }
    }

    /// The state after a latency joined the latency history.
    pub open spec fn after_latency(self, latency_us: u64) -> MetricsState<R> {
        MetricsState { latency_us: capped_push(self.latency_us, latency_us), ..self }
    }

    /// The state after a jitter joined the jitter history.
    pub open spec fn after_jitter(self, jitter_us: u64) -> MetricsState<R> {
        MetricsState { jitter_us: capped_push(self.jitter_us, jitter_us), ..self }
    }

    /// The state after one more completed processor cycle.
    pub open spec fn after_cycle(self) -> MetricsState<R> {
        MetricsState { total_cycles: wrapping_add(self.total_cycles, 1), ..self }
    }
}

impl<R> View for Metrics<R> {
    type V = MetricsState<R>;

    open spec fn view(&self) -> MetricsState<R> {
        MetricsState {
            force: self.force@,
            position: self.position@,
            temperature: self.temperature@,
            gripper: self.gripper@,
            motor: self.motor@,
            stabiliser: self.stabiliser@,
            latency_us: self.latency_us@,
            jitter_us: self.jitter_us@,
            miss_sensor: self.miss_sensor,
            miss_processor: self.miss_processor,
            miss_actuator: self.miss_actuator,
            deadline_miss: self.deadline_miss,
            total_cycles: self.total_cycles,
            cpu_load_threads: self.cpu_load_threads,
        }
    }
}

impl<R> Default for Metrics<R> {
    fn default() -> (m: Metrics<R>)
        ensures
            m@ == MetricsState::<R>::empty(),
    {
        Metrics {
            force: VecDeque::new(),
            position: VecDeque::new(),
            temperature: VecDeque::new(),
            gripper: VecDeque::new(),
            motor: VecDeque::new(),
            stabiliser: VecDeque::new(),
            latency_us: VecDeque::new(),
            jitter_us: VecDeque::new(),
            miss_sensor: 0,
            miss_processor: 0,
            miss_actuator: 0,
            deadline_miss: 0,
            total_cycles: 0,
            cpu_load_threads: 0,
        }
    }
}

impl<R> Metrics<R> {
    /// Counts a missed deadline of `component`, in its own counter and in the
    /// aggregate.
    pub fn record_deadline_miss(&mut self, component: DeadlineComponent)
        ensures
            final(self)@ == old(self)@.after_deadline_miss(component),
    {
        match component {
            DeadlineComponent::Sensor => {
                self.miss_sensor = self.miss_sensor.wrapping_add(1);
            },
            DeadlineComponent::Processor => {
                self.miss_processor = self.miss_processor.wrapping_add(1);
            },
            DeadlineComponent::Actuator => {
                self.miss_actuator = self.miss_actuator.wrapping_add(1);
            },
        }
        self.deadline_miss = self.deadline_miss.wrapping_add(1);
    }

    /// Appends a reading to the history of sensor `kind`.
    pub fn push_reading(&mut self, kind: SensorType, val: R)
        ensures
            final(self)@ == old(self)@.after_reading(kind, val),
    {
        match kind {
            SensorType::Force => push_capped(&mut self.force, val),
            SensorType::Position => push_capped(&mut self.position, val),
            SensorType::Temperature => push_capped(&mut self.temperature, val),
        }
    }

    /// Appends an actuator state to the history of `actuator`.
    pub fn push_actuation(&mut self, actuator: ActuatorType, val: R)
        ensures
            final(self)@ == old(self)@.after_actuation(actuator, val),
    {
        match actuator {
            ActuatorType::Gripper => push_capped(&mut self.gripper, val),
            ActuatorType::Motor => push_capped(&mut self.motor, val),
            ActuatorType::Stabiliser => push_capped(&mut self.stabiliser, val),
        }
    }

    /// Appends a latency, in microseconds, to the latency history.
    pub fn push_latency(&mut self, latency_us: u64)
        ensures
            final(self)@ == old(self)@.after_latency(latency_us),
    {
        push_capped_u64(&mut self.latency_us, latency_us);
    }

    /// Appends a jitter, in microseconds, to the jitter history.
    pub fn push_jitter(&mut self, jitter_us: u64)
        ensures
            final(self)@ == old(self)@.after_jitter(jitter_us),
    {
        push_capped_u64(&mut self.jitter_us, jitter_us);
    }

    /// Counts one completed processor cycle.
    pub fn count_cycle(&mut self)
        ensures
            final(self)@ == old(self)@.after_cycle(),
    {
        self.total_cycles = self.total_cycles.wrapping_add(1);
    }
}

/// A copy of a history.
fn copy_history<T: Copy>(history: &VecDeque<T>) -> (copy: VecDeque<T>)
    ensures
        copy@ == history@,
{
    let mut copy: VecDeque<T> = VecDeque::new();
    let mut i: usize = 0;
    while i < history.len()
        invariant
            i <= history@.len(),
            copy@ == history@.subrange(0, i as int),
        decreases history@.len() - i,
    {
        copy.push_back(history[i]);
        assert(history@.subrange(0, i as int).push(history@[i as int]) =~= history@.subrange(
            0,
            i + 1,
        ));
        i = i + 1;
    }
    assert(history@.subrange(0, i as int) =~= history@);
    copy
}

impl<R: Copy> Metrics<R> {
    /// A copy of the whole buffer, for a reader to look at while the writers
    /// go on.
    pub fn snapshot(&self) -> (copy: Metrics<R>)
        ensures
            copy@ == self@,
    {
        Metrics {
            force: copy_history(&self.force),
            position: copy_history(&self.position),
            temperature: copy_history(&self.temperature),
            gripper: copy_history(&self.gripper),
            motor: copy_history(&self.motor),
            stabiliser: copy_history(&self.stabiliser),
            latency_us: copy_history(&self.latency_us),
            jitter_us: copy_history(&self.jitter_us),
            miss_sensor: self.miss_sensor,
            miss_processor: self.miss_processor,
            miss_actuator: self.miss_actuator,
            deadline_miss: self.deadline_miss,
            total_cycles: self.total_cycles,
            cpu_load_threads: self.cpu_load_threads,
        }
    }
}

/// One step of a metrics buffer.
pub enum MetricsUpdate<R> {
    DeadlineMiss { component: DeadlineComponent },
    Reading { kind: SensorType, val: R },
    Actuation { actuator: ActuatorType, val: R },
    Latency { latency_us: u64 },
    Jitter { jitter_us: u64 },
    Cycle,
}

/// The buffer after one step.
pub open spec fn after_update<R>(m: MetricsState<R>, update: MetricsUpdate<R>) -> MetricsState<R> {
    match update {
        MetricsUpdate::DeadlineMiss { component } => m.after_deadline_miss(component),
        MetricsUpdate::Reading { kind, val } => m.after_reading(kind, val),
        MetricsUpdate::Actuation { actuator, val } => m.after_actuation(actuator, val),
        MetricsUpdate::Latency { latency_us } => m.after_latency(latency_us),
        MetricsUpdate::Jitter { jitter_us } => m.after_jitter(jitter_us),
        MetricsUpdate::Cycle => m.after_cycle(),
    }
}

/// The buffer after a run of steps, first step first.
pub open spec fn after_updates<R>(m: MetricsState<R>, updates: Seq<MetricsUpdate<R>>) -> MetricsState<
    R,
>
    decreases updates.len(),
{
    if updates.len() == 0 {
        m
    } else {
        after_update(after_updates(m, updates.drop_last()), updates.last())
    }
}

/// A step keeps every history within `MAX_POINTS` and keeps the aggregate
/// miss counter equal to the sum of the per-component counters.
pub proof fn lemma_update_keeps_invariants<R>(m: MetricsState<R>, update: MetricsUpdate<R>)
    requires
        m.bounded(),
        m.balanced(),
    ensures
        after_update(m, update).bounded(),
        after_update(m, update).balanced(),
{
}

/// At every point of a run that starts from an empty buffer, no history
/// holds more than `MAX_POINTS` values, and the aggregate miss counter
/// equals the sum of the sensor, processor and actuator miss counters: as
/// plain numbers while that sum fits in 64 bits, modulo 2^64 in any case.
pub proof fn lemma_metrics_invariants<R>(updates: Seq<MetricsUpdate<R>>)
    ensures
        after_updates(MetricsState::<R>::empty(), updates).bounded(),
        after_updates(MetricsState::<R>::empty(), updates).balanced(),
        ({
            let m = after_updates(MetricsState::<R>::empty(), updates);
            m.miss_sensor + m.miss_processor + m.miss_actuator <= u64::MAX ==> m.deadline_miss
                == m.miss_sensor + m.miss_processor + m.miss_actuator
        }),
    decreases updates.len(),
{
    if updates.len() > 0 {
        lemma_metrics_invariants(updates.drop_last());
        lemma_update_keeps_invariants(
            after_updates(MetricsState::<R>::empty(), updates.drop_last()),
            updates.last(),
        );
    }
}

/// The largest value of `data`, zero for no data.
pub open spec fn seq_max(data: Seq<u64>) -> u64
    decreases data.len(),
{
    if data.len() == 0 {
        0
    } else if data.last() >= seq_max(data.drop_last()) {
        data.last()
    } else {
        seq_max(data.drop_last())
    }
}

/// The sum of `data`.
pub open spec fn seq_sum(data: Seq<u64>) -> nat
    decreases data.len(),
{
    if data.len() == 0 {
        0
    } else {
        seq_sum(data.drop_last()) + data.last() as nat
    }
}

/// The mean of `data` rounded down, zero for no data.
pub open spec fn seq_mean(data: Seq<u64>) -> nat {
    if data.len() == 0 {
        0
    } else {
        seq_sum(data) / data.len()
    }
}

proof fn lemma_sum_bound(data: Seq<u64>)
    ensures
        seq_sum(data) <= data.len() * u64::MAX,
    decreases data.len(),
{
    if data.len() > 0 {
        lemma_sum_bound(data.drop_last());
        assert(seq_sum(data) <= (data.len() - 1) * u64::MAX + u64::MAX);
        assert((data.len() - 1) * u64::MAX + u64::MAX == data.len() * u64::MAX) by (nonlinear_arith);
    }
}

/// The largest value in `data`, zero if there is none.
pub fn max_u64(data: &VecDeque<u64>) -> (m: u64)
    ensures
        m == seq_max(data@),
{
    let mut m: u64 = 0;
    let mut i: usize = 0;
    while i < data.len()
        invariant
            i <= data@.len(),
            m == seq_max(data@.subrange(0, i as int)),
        decreases data@.len() - i,
    {
        let v = data[i];
        proof {
            let next = data@.subrange(0, i + 1);
            assert(next.drop_last() =~= data@.subrange(0, i as int));
            assert(next.last() == v);
        }
        if v >= m {
            m = v;
        }
        i = i + 1;
    }
    assert(data@.subrange(0, i as int) =~= data@);
    m
}

/// The mean of `data` rounded down, zero if there is no data.
pub fn mean_u64(data: &VecDeque<u64>) -> (m: u64)
    ensures
        m == seq_mean(data@),
{
    let n = data.len();
    if n == 0 {
        return 0;
    }
    let mut sum: u128 = 0;
    let mut i: usize = 0;
    while i < n
        invariant
            n == data@.len(),
            i <= n,
            sum == seq_sum(data@.subrange(0, i as int)),
        decreases n - i,
    {
        let v = data[i];
        proof {
            let next = data@.subrange(0, i + 1);
            assert(next.drop_last() =~= data@.subrange(0, i as int));
            assert(next.last() == v);
            lemma_sum_bound(next);
            assert(next.len() * u64::MAX <= usize::MAX * u64::MAX) by (nonlinear_arith)
                requires
                    next.len() <= usize::MAX,
            ;
            assert(usize::MAX * u64::MAX <= u128::MAX) by (nonlinear_arith)
                requires
                    usize::MAX <= u64::MAX,
            ;
        }
        sum = sum + v as u128;
        i = i + 1;
    }
    proof {
        assert(data@.subrange(0, n as int) =~= data@);
        lemma_sum_bound(data@);
        assert(seq_sum(data@) / (n as nat) <= u64::MAX) by (nonlinear_arith)
            requires
                seq_sum(data@) <= n * u64::MAX,
                n > 0,
        ;
    }
    (sum / n as u128) as u64
}

/// The column names of the sweep summary.
pub const SWEEP_CSV_HEADER: &'static str =
    "cpu_load_threads,deadline_miss,total_cycles,deadline_miss_rate,max_jitter_us,avg_latency_us";

/// The figures of one run that go into the sweep summary.
#[derive(Debug, Clone, Copy, PartialEq, Eq, Structural)]
pub struct SweepSummary {
    pub cpu_load_threads: usize,
    pub deadline_miss: u64,
    pub total_cycles: u64,
    pub max_jitter_us: u64,
    pub avg_latency_us: u64,
}

/// The summary of a metrics buffer: its counters, the largest jitter and the
/// mean latency of its histories.
pub open spec fn summary_of<R>(m: MetricsState<R>) -> SweepSummary {
    SweepSummary {
        cpu_load_threads: m.cpu_load_threads,
        deadline_miss: m.deadline_miss,
        total_cycles: m.total_cycles,
        max_jitter_us: seq_max(m.jitter_us),
        avg_latency_us: seq_mean(m.latency_us) as u64,
    }
}

/// The row of the sweep summary for `summary`, with the miss rate written as
/// `rate_text`.
pub open spec fn sweep_row(summary: SweepSummary, rate_text: Seq<char>) -> Seq<char> {
    decimal(summary.cpu_load_threads as nat) + ","@ + decimal(summary.deadline_miss as nat) + ","@
        + decimal(summary.total_cycles as nat) + ","@ + rate_text + ","@ + decimal(
        summary.max_jitter_us as nat,
    ) + ","@ + decimal(summary.avg_latency_us as nat)
}

/// Every row of the sweep summary has the six columns of its header: it holds
/// five separating commas, over and above those in the text of the miss rate.
pub proof fn lemma_sweep_row_has_six_columns(summary: SweepSummary, rate_text: Seq<char>)
    ensures
        count_char(sweep_row(summary, rate_text), ',') == 5 + count_char(rate_text, ','),
{
    let c = ',';
    reveal_strlit(",");
    assert(","@ =~= seq![',']);
    assert(","@.drop_last() =~= Seq::<char>::empty());
    assert(count_char(Seq::<char>::empty(), c) == 0);
    assert(count_char(","@, c) == 1);
    let d1 = decimal(summary.cpu_load_threads as nat);
    let d2 = decimal(summary.deadline_miss as nat);
    let d3 = decimal(summary.total_cycles as nat);
    let d4 = decimal(summary.max_jitter_us as nat);
    let d5 = decimal(summary.avg_latency_us as nat);
    lemma_decimal_digits_only(summary.cpu_load_threads as nat, c);
    lemma_decimal_digits_only(summary.deadline_miss as nat, c);
    lemma_decimal_digits_only(summary.total_cycles as nat, c);
    lemma_decimal_digits_only(summary.max_jitter_us as nat, c);
    lemma_decimal_digits_only(summary.avg_latency_us as nat, c);
    let p1 = d1 + ","@;
    let p2 = p1 + d2;
    let p3 = p2 + ","@;
    let p4 = p3 + d3;
    let p5 = p4 + ","@;
    let p6 = p5 + rate_text;
    let p7 = p6 + ","@;
    let p8 = p7 + d4;
    let p9 = p8 + ","@;
    lemma_count_concat(d1, ","@, c);
    lemma_count_concat(p1, d2, c);
    lemma_count_concat(p2, ","@, c);
    lemma_count_concat(p3, d3, c);
    lemma_count_concat(p4, ","@, c);
    lemma_count_concat(p5, rate_text, c);
    lemma_count_concat(p6, ","@, c);
    lemma_count_concat(p7, d4, c);
    lemma_count_concat(p8, ","@, c);
    lemma_count_concat(p9, d5, c);
    assert(sweep_row(summary, rate_text) == p9 + d5);
}

impl<R> Metrics<R> {
    /// The figures of this run for the sweep summary.
    pub fn sweep_summary(&self) -> (summary: SweepSummary)
        ensures
            summary == summary_of(self@),
    {
        SweepSummary {
            cpu_load_threads: self.cpu_load_threads,
            deadline_miss: self.deadline_miss,
            total_cycles: self.total_cycles,
            max_jitter_us: max_u64(&self.jitter_us),
            avg_latency_us: mean_u64(&self.latency_us),
        }
    }
}

/// Writes the row of the sweep summary, without a line end. The miss rate is
/// a real number; the caller hands over its text.
pub fn format_sweep_row(summary: &SweepSummary, rate_text: &str) -> (row: String)
    ensures
        row@ == sweep_row(*summary, rate_text@),
{
    let mut row = String::new();
    push_decimal(&mut row, summary.cpu_load_threads as u64);
    row.append(",");
    push_decimal(&mut row, summary.deadline_miss);
    row.append(",");
    push_decimal(&mut row, summary.total_cycles);
    row.append(",");
    row.append(rate_text);
    row.append(",");
    push_decimal(&mut row, summary.max_jitter_us);
    row.append(",");
    push_decimal(&mut row, summary.avg_latency_us);
    assert(Seq::<char>::empty() + decimal(summary.cpu_load_threads as nat) =~= decimal(
        summary.cpu_load_threads as nat,
    ));
    row
}

} // verus!
