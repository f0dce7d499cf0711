//! The processing stage: sliding windows, arrival jitter, deadline accounting
//! and the reaction to feedback.
//!
//! The arithmetic on readings (mean, standard deviation, the anomaly test and
//! the anomaly threshold itself) is real-valued and stays with the caller. This
//! module keeps the windows the arithmetic runs on, decides what a feedback
//! message does to the threshold, and records what a processor cycle has to
//! record.

use vstd::prelude::*;
use std::collections::VecDeque;
use crate::events::{Event, EventRecorder, EventText};
use crate::feedback::{FeedbackKind, DEADLINE_MISS, UNSTABLE_SENSOR};
use crate::metrics::{DeadlineComponent, Metrics, MetricsState};
use crate::sensor::{
    abs_diff, distance, elapsed_micros, micros_between, sensor_to_id, spec_sensor_id, SensorData,
    SensorType,
};
use crate::sync_manager::{SinkState, SyncManager};
use crate::text::str_eq;

verus! {

/// The readings a window keeps unless another size is asked for.
pub const DEFAULT_WINDOW_SIZE: usize = 10;

/// The time one processor cycle may take, in microseconds.
pub const DEFAULT_DEADLINE_US: u64 = 200;

/// The nominal time between two samples of one sensor, in microseconds.
pub const DEFAULT_EXPECTED_INTERVAL_US: u64 = 5_000;

/// The deliberate computation time of one cycle, in microseconds.
pub const BUSY_US: u64 = 110;

/// How long the processor sleeps when its queue is empty, in microseconds.
pub const EMPTY_POLL_US: u64 = 50;

/// Consecutive overruns that count as systemic overload.
pub const MISS_CONFIRM_THRESHOLD: u32 = 3;

/// The code under which an anomaly of sensor `sensor_id` is logged is this
/// much above the sensor's id.
pub const ANOMALY_CODE_BASE: u16 = 100;

/// A filtered sample on its way to the actuators. `R` is the type of a
/// reading.
#[derive(Debug, Clone, Copy)]
pub struct ProcessedPacket<R> {
    pub sensor_type: SensorType,
    pub filtered: R,
    pub raw: R,
    /// When the processor cycle that made the packet started, in nanoseconds.
    pub timestamp: u64,
    /// The number of the sample the packet was made from.
    pub seq: u64,
}

/// What a feedback message does to the anomaly threshold.
#[derive(Debug, Clone, Copy, PartialEq, Eq, Structural)]
pub enum ThresholdAction {
    /// Multiply by 1.10: fewer false anomalies from an unstable sensor.
    Relax,
    /// Multiply by 0.95: an actuator missed its deadline.
    Tighten,
    /// Multiply by 0.999 if the threshold is above 1.5: slow return to nominal.
    Decay,
    /// Leave the threshold as it is.
    Keep,
}

/// What a feedback message of kind `kind` does to the anomaly threshold.
pub open spec fn threshold_action_of<R>(kind: FeedbackKind<R>) -> ThresholdAction {
    match kind {
        FeedbackKind::Ack => ThresholdAction::Decay,
        FeedbackKind::ActuatorState(_) => ThresholdAction::Keep,
        FeedbackKind::Error(code) => if code@ == UNSTABLE_SENSOR@ {
            ThresholdAction::Relax
        } else if code@ == DEADLINE_MISS@ {
            ThresholdAction::Tighten
        } else {
            ThresholdAction::Keep
        },
    }
}

/// What a feedback message of kind `kind` does to the anomaly threshold.
pub fn threshold_action<R>(kind: &FeedbackKind<R>) -> (action: ThresholdAction)
    ensures
        action == threshold_action_of(*kind),
{
    match kind {
        FeedbackKind::Ack => ThresholdAction::Decay,
        FeedbackKind::ActuatorState(_) => ThresholdAction::Keep,
        FeedbackKind::Error(code) => {
            if str_eq(code, UNSTABLE_SENSOR) {
                ThresholdAction::Relax
            } else if str_eq(code, DEADLINE_MISS) {
                ThresholdAction::Tighten
            } else {
                ThresholdAction::Keep
            }
        },
    }
}

/// A window after it has taken one more reading: the oldest reading leaves
/// when the window has grown past `size`.
pub open spec fn window_push<R>(window: Seq<R>, reading: R, size: usize) -> Seq<R> {
    if window.len() + 1 > size {
        window.push(reading).subrange(1, window.len() as int + 1)
    } else {
        window.push(reading)
    }
}

/// The jitter of a sample that arrives with timestamp `timestamp` after a
/// sample of the same sensor with timestamp `previous`: the distance of the
/// time between them from the expected interval, in microseconds. The first
/// sample of a sensor has no jitter.
pub open spec fn arrival_jitter(previous: Option<u64>, timestamp: u64, expected_interval_us: u64) -> u64 {
    match previous {
        Some(p) => abs_diff(elapsed_micros(p, timestamp), expected_interval_us),
        None => 0,
    }
}

/// The consecutive-overrun count after a cycle that took `elapsed_us`.
pub open spec fn overruns_after(consecutive: u32, elapsed_us: u64, deadline_us: u64) -> u32 {
    if elapsed_us > deadline_us {
        if consecutive == u32::MAX {
            consecutive
        } else {
            (consecutive + 1) as u32
        }
    } else {
        0
    }
}

/// The processing stage. `R` is the type of a reading.
pub struct Processor<R> {
    window_size: usize,
    deadline_us: u64,
    expected_interval_us: u64,
    force_window: VecDeque<R>,
    position_window: VecDeque<R>,
    temperature_window: VecDeque<R>,
    last_force: Option<u64>,
    last_position: Option<u64>,
    last_temperature: Option<u64>,
    consecutive_overruns: u32,
}

/// The mathematical state of the processing stage.
pub struct ProcessorState<R> {
    pub window_size: usize,
    pub deadline_us: u64,
    pub expected_interval_us: u64,
    pub force_window: Seq<R>,
    pub position_window: Seq<R>,
    pub temperature_window: Seq<R>,
    pub last_force: Option<u64>,
    pub last_position: Option<u64>,
    pub last_temperature: Option<u64>,
    pub consecutive_overruns: u32,
}

impl<R> ProcessorState<R> {
    /// A stage that has seen no sample.
    pub open spec fn fresh(window_size: usize, deadline_us: u64, expected_interval_us: u64) -> Self {
        ProcessorState {
            window_size,
            deadline_us,
            expected_interval_us,
            force_window: Seq::empty(),
            position_window: Seq::empty(),
            temperature_window: Seq::empty(),
            last_force: None,
            last_position: None,
            last_temperature: None,
            consecutive_overruns: 0,
        }
    }

    /// No window holds more readings than the window size.
    pub open spec fn wf(self) -> bool {
        &&& self.force_window.len() <= self.window_size
        &&& self.position_window.len() <= self.window_size
        &&& self.temperature_window.len() <= self.window_size
    }

    /// The window of sensor `kind`.
    pub open spec fn window(self, kind: SensorType) -> Seq<R> {
        match kind {
            SensorType::Force => self.force_window,
            SensorType::Position => self.position_window,
            SensorType::Temperature => self.temperature_window,
        }
    }

    /// The timestamp of the last sample of sensor `kind`, if there was one.
    pub open spec fn last_seen(self, kind: SensorType) -> Option<u64> {
        match kind {
            SensorType::Force => self.last_force,
            SensorType::Position => self.last_position,
            SensorType::Temperature => self.last_temperature,
        }
    }

    /// The stage after a sample of sensor `kind` with timestamp `timestamp`
    /// arrived.
    pub open spec fn after_arrival(self, kind: SensorType, timestamp: u64) -> Self {
        match kind {
            SensorType::Force => ProcessorState { last_force: Some(timestamp), ..self },
            SensorType::Position => ProcessorState { last_position: Some(timestamp), ..self },
            SensorType::Temperature => ProcessorState { last_temperature: Some(timestamp), ..self },
        }
    }

    /// The stage after `reading` joined the window of sensor `kind`.
    pub open spec fn after_window_push(self, kind: SensorType, reading: R) -> Self {
        match kind {
            SensorType::Force => ProcessorState {
                force_window: window_push(self.force_window, reading, self.window_size),
                ..self
            },
            SensorType::Position => ProcessorState {
                position_window: window_push(self.position_window, reading, self.window_size),
                ..self
            },
            SensorType::Temperature => ProcessorState {
                temperature_window: window_push(
                    self.temperature_window,
                    reading,
                    self.window_size,
                ),
                ..self
            },
        }
    }

    /// The stage after a cycle that took `elapsed_us`.
    pub open spec fn after_cycle(self, elapsed_us: u64) -> Self {
        ProcessorState {
            consecutive_overruns: overruns_after(
                self.consecutive_overruns,
                elapsed_us,
                self.deadline_us,
            ),
            ..self
        }
    }

    /// A cycle that took `elapsed_us` overran the deadline.
    pub open spec fn overran(self, elapsed_us: u64) -> bool {
        elapsed_us > self.deadline_us
    }
}

/// Whether a reading counts as an anomaly, given how many readings its
/// window holds and whether it exceeds the anomaly threshold. A window of
/// fewer than two readings has no spread to measure against.
pub open spec fn is_anomaly(window_len: nat, exceeds_threshold: bool) -> bool {
    exceeds_threshold && window_len >= 2
}

/// The event that reports a filtered sample.
pub open spec fn processed_event(seq: u64, now_ns: u64, filtered_text: Seq<char>, is_anomaly: bool) -> EventText {
    EventText::SensorProcessed { seq, ts_ns: now_ns, filtered_value: filtered_text, is_anomaly }
}

/// The packet made from `data` in a cycle that started at `cycle_start_ns`.
pub open spec fn packet_of<R>(data: SensorData<R>, filtered: R, cycle_start_ns: u64) -> ProcessedPacket<
    R,
> {
    ProcessedPacket {
        sensor_type: data.sensor_type,
        filtered,
        raw: data.reading,
        timestamp: cycle_start_ns,
        seq: data.seq,
    }
}

/// The sink after the deadline accounting of a cycle.
pub open spec fn sink_after_cycle(sink: SinkState, overran: bool, now_ns: u64) -> SinkState {
    if overran {
        sink.after_proc_miss(now_ns)
    } else {
        sink
    }
}

/// The metrics after the deadline accounting of a cycle that took
/// `elapsed_us`.
pub open spec fn metrics_after_cycle<R>(metrics: MetricsState<R>, elapsed_us: u64, overran: bool) -> MetricsState<
    R,
> {
    let counted = metrics.after_latency(elapsed_us).after_cycle();
    if overran {
        counted.after_deadline_miss(DeadlineComponent::Processor)
    } else {
        counted
    }
}

impl<R> View for Processor<R> {
    type V = ProcessorState<R>;

    closed spec fn view(&self) -> ProcessorState<R> {
        ProcessorState {
            window_size: self.window_size,
            deadline_us: self.deadline_us,
            expected_interval_us: self.expected_interval_us,
            force_window: self.force_window@,
            position_window: self.position_window@,
            temperature_window: self.temperature_window@,
            last_force: self.last_force,
            last_position: self.last_position,
            last_temperature: self.last_temperature,
            consecutive_overruns: self.consecutive_overruns,
        }
    }
}

impl<R: Copy> Processor<R> {
    /// A stage with windows of `window_size` readings, a cycle deadline of
    /// `deadline_us` and an expected interval of `expected_interval_us`
    /// between two samples of one sensor.
    pub fn new(window_size: usize, deadline_us: u64, expected_interval_us: u64) -> (p: Processor<R>)
        ensures
            p@ == ProcessorState::<R>::fresh(window_size, deadline_us, expected_interval_us),
            p@.wf(),
    {
        Processor {
            window_size,
            deadline_us,
            expected_interval_us,
            force_window: VecDeque::new(),
            position_window: VecDeque::new(),
            temperature_window: VecDeque::new(),
            last_force: None,
            last_position: None,
            last_temperature: None,
            consecutive_overruns: 0,
        }
    }

    /// How many cycles in a row have overrun the deadline.
    pub fn consecutive_overruns(&self) -> (n: u32)
        ensures
            n == self@.consecutive_overruns,
    {
        self.consecutive_overruns
    }

    /// The window of sensor `kind`, oldest reading first.
    pub fn window(&self, kind: SensorType) -> (w: &VecDeque<R>)
        ensures
            w@ == self@.window(kind),
    {
        match kind {
            SensorType::Force => &self.force_window,
            SensorType::Position => &self.position_window,
            SensorType::Temperature => &self.temperature_window,
        }
    }

    /// Notes the arrival of a sample and reports its arrival jitter to the
    /// sink.
    pub fn track_arrival(&mut self, kind: SensorType, timestamp: u64, now_ns: u64, sync: &mut SyncManager) -> (jitter_us:
        u64)
        ensures
            jitter_us == arrival_jitter(
                old(self)@.last_seen(kind),
                timestamp,
                old(self)@.expected_interval_us,
            ),
            final(self)@ == old(self)@.after_arrival(kind, timestamp),
            final(sync)@ == old(sync)@.after_jitter(
                spec_sensor_id(kind) as u16,
                jitter_us,
                now_ns,
            ),
    {
        let previous = match kind {
            SensorType::Force => {
                let p = self.last_force;
                self.last_force = Some(timestamp);
                p
            },
            SensorType::Position => {
                let p = self.last_position;
                self.last_position = Some(timestamp);
                p
            },
            SensorType::Temperature => {
                let p = self.last_temperature;
                self.last_temperature = Some(timestamp);
                p
            },
        };
        let jitter_us = match previous {
            Some(p) => distance(micros_between(p, timestamp), self.expected_interval_us),
            None => 0,
        };
        sync.record_jitter(sensor_to_id(&kind), jitter_us, now_ns);
        jitter_us
    }

    /// Puts a reading into the window of its sensor; the oldest reading leaves
    /// when the window has grown past its size.
    pub fn push_window(&mut self, kind: SensorType, reading: R)
        ensures
            final(self)@ == old(self)@.after_window_push(kind, reading),
            old(self)@.wf() ==> final(self)@.wf(),
    {
        let size = self.window_size;
        match kind {
            SensorType::Force => slide(&mut self.force_window, reading, size),
            SensorType::Position => slide(&mut self.position_window, reading, size),
            SensorType::Temperature => slide(&mut self.temperature_window, reading, size),
        }
    }

    /// Records the outcome of filtering one sample and makes its packet.
    ///
    /// `exceeds_threshold` is the caller's verdict on whether the reading lies
    /// further from the window's mean than the anomaly threshold allows. It
    /// counts as an anomaly only if the window of the sensor holds at least
    /// two readings: a single reading is its own mean.
    ///
    /// The filtered value joins the metrics, unless the window of the sensor
    /// is empty. An anomaly is logged under the code `ANOMALY_CODE_BASE` plus
    /// the sensor's id. The filtered sample is reported as an event, and the
    /// packet carries the sample's sequence number and the start of the cycle.
    pub fn finish_sample(
        &self,
        data: SensorData<R>,
        filtered: R,
        filtered_text: String,
        exceeds_threshold: bool,
        cycle_start_ns: u64,
        now_ns: u64,
        sync: &mut SyncManager,
        metrics: &mut Metrics<R>,
        recorder: &mut EventRecorder,
    ) -> (packet: ProcessedPacket<R>)
        ensures
            packet == packet_of(data, filtered, cycle_start_ns),
            final(metrics)@ == if self@.window(data.sensor_type).len() == 0 {
                old(metrics)@
            } else {
                old(metrics)@.after_reading(data.sensor_type, filtered)
            },
            final(sync)@ == if is_anomaly(self@.window(data.sensor_type).len(), exceeds_threshold) {
                old(sync)@.after_custom(
                    (ANOMALY_CODE_BASE + spec_sensor_id(data.sensor_type)) as u16,
                    now_ns,
                )
            } else {
                old(sync)@
            },
            final(recorder)@ == old(recorder)@.after_record(
                processed_event(
                    data.seq,
                    now_ns,
                    filtered_text@,
                    is_anomaly(self@.window(data.sensor_type).len(), exceeds_threshold),
                ),
            ),
    {
        let held = self.window(data.sensor_type).len();
        if held != 0 {
            metrics.push_reading(data.sensor_type, filtered);
        }
        let anomaly = exceeds_threshold && held >= 2;
        if anomaly {
            sync.record_custom(ANOMALY_CODE_BASE + sensor_to_id(&data.sensor_type), now_ns);
        }
        recorder.record(
            Event::SensorProcessed {
                seq: data.seq,
                ts_ns: now_ns,
                filtered_value: filtered_text,
                is_anomaly: anomaly,
            },
        );
        ProcessedPacket {
            sensor_type: data.sensor_type,
            filtered,
            raw: data.reading,
            timestamp: cycle_start_ns,
            seq: data.seq,
        }
    }

    /// The deadline accounting of one cycle that took `elapsed_us`.
    ///
    /// The latency joins the metrics and the cycle is counted. An overrun is
    /// counted as a processor miss, in the metrics and in the sink, every time
    /// it happens. The answer is `true` when this was at least the
    /// `MISS_CONFIRM_THRESHOLD`-th overrun in a row: systemic overload. A
    /// cycle within the deadline starts the count over.
    pub fn update_metrics(
        &mut self,
        elapsed_us: u64,
        now_ns: u64,
        sync: &mut SyncManager,
        metrics: &mut Metrics<R>,
    ) -> (overloaded: bool)
        ensures
            final(self)@ == old(self)@.after_cycle(elapsed_us),
            overloaded == (old(self)@.overran(elapsed_us) && final(self)@.consecutive_overruns
                >= MISS_CONFIRM_THRESHOLD),
            final(sync)@ == sink_after_cycle(old(sync)@, old(self)@.overran(elapsed_us), now_ns),
            final(metrics)@ == metrics_after_cycle(
                old(metrics)@,
                elapsed_us,
                old(self)@.overran(elapsed_us),
            ),
    {
        metrics.push_latency(elapsed_us);
        metrics.count_cycle();
        if elapsed_us > self.deadline_us {
            metrics.record_deadline_miss(DeadlineComponent::Processor);
            sync.record_proc_miss(now_ns);
            if self.consecutive_overruns < u32::MAX {
                self.consecutive_overruns = self.consecutive_overruns + 1;
            }
            self.consecutive_overruns >= MISS_CONFIRM_THRESHOLD
        } else {
            self.consecutive_overruns = 0;
            false
        }
    }

    /// Closes a cycle after the packet was handed to the transmitter: counts
    /// the sample in the sink, then does the deadline accounting of
    /// `update_metrics`.
    pub fn close_cycle(
        &mut self,
        kind: SensorType,
        elapsed_us: u64,
        now_ns: u64,
        sync: &mut SyncManager,
        metrics: &mut Metrics<R>,
    ) -> (overloaded: bool)
        ensures
            final(self)@ == old(self)@.after_cycle(elapsed_us),
            overloaded == (old(self)@.overran(elapsed_us) && final(self)@.consecutive_overruns
                >= MISS_CONFIRM_THRESHOLD),
            final(sync)@ == sink_after_cycle(
                old(sync)@.after_sample(spec_sensor_id(kind) as u16, now_ns),
                old(self)@.overran(elapsed_us),
                now_ns,
            ),
            final(metrics)@ == metrics_after_cycle(
                old(metrics)@,
                elapsed_us,
                old(self)@.overran(elapsed_us),
            ),
    {
        sync.record_sample(sensor_to_id(&kind), now_ns);
        self.update_metrics(elapsed_us, now_ns, sync, metrics)
    }
}

/// Appends `reading` to `window` and drops the oldest reading if the window
/// has grown past `size`.
fn slide<R>(window: &mut VecDeque<R>, reading: R, size: usize)
    ensures
        final(window)@ == window_push(old(window)@, reading, size),
{
    window.push_back(reading);
    if window.len() > size {
        window.pop_front();
    }
}

/// A window that is within its size stays within it when it takes a reading,
/// and then ends with that reading unless the size is zero.
pub proof fn lemma_window_stays_within_size<R>(window: Seq<R>, reading: R, size: usize)
    requires
        window.len() <= size,
    ensures
        window_push(window, reading, size).len() <= size,
        window_push(window, reading, size).len() > 0 <==> size > 0,
        size > 0 ==> window_push(window, reading, size).last() == reading,
{
}

/// Taking a reading keeps every window of the stage within the window size.
pub proof fn lemma_push_keeps_windows_within_size<R>(p: ProcessorState<R>, kind: SensorType, reading: R)
    requires
        p.wf(),
    ensures
        p.after_window_push(kind, reading).wf(),
{
}

/// With a window size of one no reading is ever an anomaly: the window then
/// holds exactly the latest reading, which is its own mean, and whatever the
/// threshold test said, `finish_sample` reports no anomaly and logs none.
pub proof fn lemma_window_of_one_never_anomalous<R>(
    p: ProcessorState<R>,
    kind: SensorType,
    reading: R,
    exceeds_threshold: bool,
)
    requires
        p.wf(),
        p.window_size == 1,
    ensures
        p.after_window_push(kind, reading).window(kind) == seq![reading],
        !is_anomaly(p.after_window_push(kind, reading).window(kind).len(), exceeds_threshold),
{
    assert(window_push(p.window(kind), reading, 1) =~= seq![reading]);
}

/// A sample keeps its sequence number and its sensor kind through the
/// processing stage: the packet made from it and the event that reports it
/// both carry the number the sensor gave it.
pub proof fn lemma_processing_keeps_seq<R>(
    data: SensorData<R>,
    filtered: R,
    filtered_text: Seq<char>,
    is_anomaly: bool,
    cycle_start_ns: u64,
    now_ns: u64,
)
    ensures
        packet_of(data, filtered, cycle_start_ns).seq == data.seq,
        packet_of(data, filtered, cycle_start_ns).sensor_type == data.sensor_type,
        packet_of(data, filtered, cycle_start_ns).timestamp == cycle_start_ns,
        processed_event(data.seq, now_ns, filtered_text, is_anomaly).seq() == data.seq,
{
}

} // verus!
