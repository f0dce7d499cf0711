//! Sensor kinds and the bookkeeping of one periodic sensor task.
//!
//! A sensor task releases one sample per period. The caller owns the clock,
//! the sleep, the noise source and the queue to the processor; the task says
//! how long to sleep, counts late releases, numbers the samples and reports
//! every release and every hand-off.

use vstd::prelude::*;
use vstd::wrapping::u64_specs::wrapping_add;
use crate::events::{Event, EventRecorder, EventText};
use crate::metrics::{DeadlineComponent, Metrics};
use crate::sync_manager::SyncManager;

verus! {

/// The closed set of sensors the pipeline samples.
#[derive(Debug, Clone, Copy, PartialEq, Eq, Hash, Structural)]
pub enum SensorType {
    Force,
    Position,
    Temperature,
}

/// The telemetry key of a sensor kind, as a mathematical integer.
pub open spec fn spec_sensor_id(t: SensorType) -> int {
    match t {
        SensorType::Force => 1,
        SensorType::Position => 2,
        SensorType::Temperature => 3,
    }
}

impl SensorType {
    /// The display name of a sensor kind, as a sequence of characters.
    pub open spec fn spec_name(self) -> Seq<char> {
        match self {
            SensorType::Force => "Force"@,
            SensorType::Position => "Position"@,
            SensorType::Temperature => "Temperature"@,
        }
    }

    /// The display name of this sensor kind.
    pub fn name(&self) -> (s: &'static str)
        ensures
            s@ == self.spec_name(),
    {
        match self {
            SensorType::Force => "Force",
            SensorType::Position => "Position",
            SensorType::Temperature => "Temperature",
        }
    }
}

/// The fixed integer under which a sensor kind is keyed in telemetry.
pub fn sensor_to_id(t: &SensorType) -> (id: u16)
    ensures
        id == spec_sensor_id(*t),
{
    match t {
        SensorType::Force => 1,
        SensorType::Position => 2,
        SensorType::Temperature => 3,
    }
}

/// The longest sampling period a sensor task takes, in milliseconds: the
/// period in nanoseconds has to fit in 64 bits.
pub const MAX_SAMPLING_RATE_MS: u64 = 18_446_744_073_709;

/// One raw sample on its way to the processor. `R` is the type of a reading.
#[derive(Debug, Clone, Copy)]
pub struct SensorData<R> {
    /// When the sample was released, in nanoseconds on the monotonic clock.
    pub timestamp: u64,
    pub reading: R,
    pub sensor_type: SensorType,
    /// The number of the sample within its sensor task, counted from one.
    pub seq: u64,
}

/// How an attempt to enqueue without waiting ended.
#[derive(Debug, Clone, Copy, PartialEq, Eq, Structural)]
pub enum SendOutcome {
    /// The queue took the item.
    Sent,
    /// The queue was full.
    Full,
    /// The other end of the queue is gone.
    Disconnected,
}

/// The whole microseconds from `earlier_ns` to `later_ns`, zero if
/// `later_ns` is not the later.
pub open spec fn elapsed_micros(earlier_ns: u64, later_ns: u64) -> u64 {
    if later_ns >= earlier_ns {
        ((later_ns - earlier_ns) / 1000) as u64
    } else {
        0
    }
}

/// The distance between two counts.
pub open spec fn abs_diff(a: u64, b: u64) -> u64 {
    if a >= b {
        (a - b) as u64
    } else {
        (b - a) as u64
    }
}

/// The sum of two times, held at the top of `u64`.
pub open spec fn saturating_sum(a: u64, b: u64) -> u64 {
    if a + b > u64::MAX {
        u64::MAX
    } else {
        (a + b) as u64
    }
}

/// The whole microseconds from `earlier_ns` to `later_ns`, zero if
/// `later_ns` is not the later.
pub fn micros_between(earlier_ns: u64, later_ns: u64) -> (us: u64)
    ensures
        us == elapsed_micros(earlier_ns, later_ns),
{
    if later_ns >= earlier_ns {
        (later_ns - earlier_ns) / 1000
    } else {
        0
    }
}

/// The distance between two counts.
pub fn distance(a: u64, b: u64) -> (d: u64)
    ensures
        d == abs_diff(a, b),
{
    if a >= b {
        a - b
    } else {
        b - a
    }
}

/// How far a measured period is from the nominal one, in microseconds:
/// positive when the period ran long. Both periods count as `i64::MAX` at most.
pub open spec fn drift_micros(period_us: u64, actual_us: u64) -> int {
    (if actual_us > i64::MAX {
        i64::MAX as int
    } else {
        actual_us as int
    }) - (if period_us > i64::MAX {
        i64::MAX as int
    } else {
        period_us as int
    })
}

/// How far the period from `last_ns` to `now_ns` is from the nominal period
/// of `period_us` microseconds.
pub fn tick_drift(period_us: u64, last_ns: u64, now_ns: u64) -> (drift_us: i64)
    ensures
        drift_us == drift_micros(period_us, elapsed_micros(last_ns, now_ns)),
{
    let actual_us = micros_between(last_ns, now_ns);
    let actual: i64 = if actual_us > i64::MAX as u64 {
        i64::MAX
    } else {
        actual_us as i64
    };
    let nominal: i64 = if period_us > i64::MAX as u64 {
        i64::MAX
    } else {
        period_us as i64
    };
    actual - nominal
}

/// One periodic sensor task.
pub struct Sensor {
    name: String,
    sampling_rate_ms: u64,
    sensor_type: SensorType,
    next_deadline: u64,
    last_tick: u64,
    seq: u64,
}

/// The mathematical state of a sensor task.
pub struct SensorState {
    pub name: Seq<char>,
    /// The sampling period in milliseconds.
    pub sampling_rate_ms: u64,
    pub sensor_type: SensorType,
    /// When the next release is due, in nanoseconds.
    pub next_deadline: u64,
    /// When the last release happened, in nanoseconds.
    pub last_tick: u64,
    /// The number the next sample gets.
    pub seq: u64,
}

impl SensorState {
    /// A task that starts at `now_ns`: the first release is due one period
    /// later and the first sample is number one.
    pub open spec fn fresh(
        name: Seq<char>,
        sampling_rate_ms: u64,
        sensor_type: SensorType,
        now_ns: u64,
    ) -> SensorState {
        SensorState {
            name,
            sampling_rate_ms,
            sensor_type,
            next_deadline: saturating_sum(now_ns, (sampling_rate_ms * 1_000_000) as u64),
            last_tick: now_ns,
            seq: 1,
        }
    }

    /// The sampling period fits the clock.
    pub open spec fn wf(self) -> bool {
        self.sampling_rate_ms <= MAX_SAMPLING_RATE_MS
    }

    /// The sampling period in nanoseconds.
    pub open spec fn period_ns(self) -> u64 {
        (self.sampling_rate_ms * 1_000_000) as u64
    }

    /// A task that looks at the clock at `now_ns` has missed its release.
    pub open spec fn is_late(self, now_ns: u64) -> bool {
        now_ns >= self.next_deadline
    }

    /// How far the period that ended with a release at `tick_ns` is from the
    /// nominal period, in microseconds.
    pub open spec fn jitter_at(self, tick_ns: u64) -> u64 {
        abs_diff(elapsed_micros(self.last_tick, tick_ns), (self.sampling_rate_ms * 1_000) as u64)
    }

    /// The event that reports the release of the next sample.
    pub open spec fn release_event(self, event_ts_ns: u64) -> EventText {
        EventText::SensorRelease {
            seq: self.seq,
            ts_ns: event_ts_ns,
            sensor_type: self.sensor_type.spec_name(),
        }
    }

    /// The event that reports how the hand-off of the current sample ended.
    pub open spec fn sent_event(self, outcome: SendOutcome, queue_len: u32, now_ns: u64) -> EventText {
        EventText::SensorSent {
            seq: self.seq,
            ts_ns: now_ns,
            enqueued: outcome == SendOutcome::Sent,
            queue_len,
        }
    }

    /// The task after a release at `tick_ns`.
    pub open spec fn after_release(self, tick_ns: u64) -> SensorState {
        SensorState { last_tick: tick_ns, ..self }
    }

    /// The task after the hand-off of the current sample. A disconnected queue
    /// ends the task, which then stays as it is; otherwise the next release is
    /// due one period after the last and the next sample gets the next number.
    pub open spec fn after_complete(self, outcome: SendOutcome) -> SensorState {
        if outcome == SendOutcome::Disconnected {
            self
        } else {
            SensorState {
                next_deadline: saturating_sum(self.next_deadline, self.period_ns()),
                seq: wrapping_add(self.seq, 1),
                ..self
            }
        }
    }
}

impl View for Sensor {
    type V = SensorState;

    closed spec fn view(&self) -> SensorState {
        SensorState {
            name: self.name@,
            sampling_rate_ms: self.sampling_rate_ms,
            sensor_type: self.sensor_type,
            next_deadline: self.next_deadline,
            last_tick: self.last_tick,
            seq: self.seq,
        }
    }
}

impl Sensor {
    #[verifier::type_invariant]
    spec fn period_fits(self) -> bool {
        self.sampling_rate_ms <= MAX_SAMPLING_RATE_MS
    }

    /// A sensor task of kind `sensor_type` that is started at `now_ns` and
    /// releases a sample every `sampling_rate_ms` milliseconds.
    pub fn new(name: &str, sampling_rate_ms: u64, sensor_type: SensorType, now_ns: u64) -> (s: Sensor)
        requires
            sampling_rate_ms <= MAX_SAMPLING_RATE_MS,
        ensures
            s@ == SensorState::fresh(name@, sampling_rate_ms, sensor_type, now_ns),
            s@.wf(),
    {
        Sensor {
            name: name.to_string(),
            sampling_rate_ms,
            sensor_type,
            next_deadline: now_ns.saturating_add(sampling_rate_ms * 1_000_000),
            last_tick: now_ns,
            seq: 1,
        }
    }

    /// The kind of this sensor.
    pub fn sensor_type(&self) -> (t: SensorType)
        ensures
            t == self@.sensor_type,
    {
        self.sensor_type
    }

    /// The sampling period in milliseconds.
    pub fn sampling_rate_ms(&self) -> (ms: u64)
        ensures
            ms == self@.sampling_rate_ms,
            self@.wf(),
    {
        proof {
            use_type_invariant(self);
        }
        self.sampling_rate_ms
    }

    /// The number the next sample gets.
    pub fn seq(&self) -> (seq: u64)
        ensures
            seq == self@.seq,
    {
        self.seq
    }

    /// The name the sensor was given.
    pub fn name(&self) -> (name: &str)
        ensures
            name@ == self@.name,
    {
        self.name.as_str()
    }

    /// Looks at the clock before a release.
    ///
    /// While the release is still ahead, answers how many nanoseconds to sleep
    /// and changes nothing. Once it is due or overdue, answers `None` and counts
    /// a scheduling miss of the sensor, in the sink and in the metrics.
    pub fn await_release<R>(&self, now_ns: u64, sync: &mut SyncManager, metrics: &mut Metrics<R>) -> (sleep_ns:
        Option<u64>)
        ensures
            sleep_ns == if self@.is_late(now_ns) {
                None
            } else {
                Some((self@.next_deadline - now_ns) as u64)
            },
            final(sync)@ == if self@.is_late(now_ns) {
                old(sync)@.after_proc_miss(now_ns)
            } else {
                old(sync)@
            },
            final(metrics)@ == if self@.is_late(now_ns) {
                old(metrics)@.after_deadline_miss(DeadlineComponent::Sensor)
            } else {
                old(metrics)@
            },
    {
        if now_ns < self.next_deadline {
            Some(self.next_deadline - now_ns)
        } else {
            sync.record_proc_miss(now_ns);
            metrics.record_deadline_miss(DeadlineComponent::Sensor);
            None
        }
    }

    /// Releases the next sample at `tick_ns`: reports the release, measures the
    /// jitter of the period that just ended, puts it into the metrics and into
    /// the sink, and remembers the tick. The answer is the jitter in
    /// microseconds.
    pub fn release<R>(
        &mut self,
        tick_ns: u64,
        now_ns: u64,
        sync: &mut SyncManager,
        metrics: &mut Metrics<R>,
        recorder: &mut EventRecorder,
    ) -> (jitter_us: u64)
        ensures
            jitter_us == old(self)@.jitter_at(tick_ns),
            final(self)@ == old(self)@.after_release(tick_ns),
            final(recorder)@ == old(recorder)@.after_record(old(self)@.release_event(now_ns)),
            final(metrics)@ == old(metrics)@.after_jitter(jitter_us),
            final(sync)@ == old(sync)@.after_jitter(
                spec_sensor_id(old(self)@.sensor_type) as u16,
                jitter_us,
                now_ns,
            ),
    {
        proof {
            use_type_invariant(&*self);
        }
        recorder.record(
            Event::SensorRelease {
                seq: self.seq,
                ts_ns: now_ns,
                sensor_type: self.sensor_type.name().to_string(),
            },
        );
        let actual_period_us = micros_between(self.last_tick, tick_ns);
        let jitter_us = distance(actual_period_us, self.sampling_rate_ms * 1_000);
        self.last_tick = tick_ns;
        metrics.push_jitter(jitter_us);
        sync.record_jitter(sensor_to_id(&self.sensor_type), jitter_us, now_ns);
        jitter_us
    }

    /// The sample released at `tick_ns` with the given reading.
    pub fn sample<R>(&self, reading: R, tick_ns: u64) -> (data: SensorData<R>)
        ensures
            data == (SensorData {
                timestamp: tick_ns,
                reading,
                sensor_type: self@.sensor_type,
                seq: self@.seq,
            }),
    {
        SensorData { timestamp: tick_ns, reading, sensor_type: self.sensor_type, seq: self.seq }
    }

    /// Closes a cycle once the hand-off to the processor has been tried.
    ///
    /// A sample the queue took is counted in the sink; any other outcome counts
    /// a dropped hand-off. A disconnected queue ends the task at once: the
    /// answer is `false` and nothing else is recorded. Otherwise the hand-off is
    /// reported with the queue length, the reading of a sample that was taken
    /// joins the metrics, the next release is scheduled and the answer is
    /// `true`.
    pub fn complete<R>(
        &mut self,
        outcome: SendOutcome,
        queue_len: u32,
        reading: R,
        now_ns: u64,
        sync: &mut SyncManager,
        metrics: &mut Metrics<R>,
        recorder: &mut EventRecorder,
    ) -> (running: bool)
        ensures
            running == (outcome != SendOutcome::Disconnected),
            final(self)@ == old(self)@.after_complete(outcome),
            final(sync)@ == if outcome == SendOutcome::Sent {
                old(sync)@.after_sample(spec_sensor_id(old(self)@.sensor_type) as u16, now_ns)
            } else {
                old(sync)@.after_tx_drop(now_ns)
            },
            final(recorder)@ == if outcome == SendOutcome::Disconnected {
                old(recorder)@
            } else {
                old(recorder)@.after_record(old(self)@.sent_event(outcome, queue_len, now_ns))
            },
            final(metrics)@ == if outcome == SendOutcome::Sent {
                old(metrics)@.after_reading(old(self)@.sensor_type, reading)
            } else {
                old(metrics)@
            },
    {
        proof {
            use_type_invariant(&*self);
        }
        let sent = match outcome {
            SendOutcome::Sent => {
                sync.record_sample(sensor_to_id(&self.sensor_type), now_ns);
                true
            },
            SendOutcome::Full => {
                sync.record_tx_drop(now_ns);
                false
            },
            SendOutcome::Disconnected => {
                sync.record_tx_drop(now_ns);
                return false;
            },
        };
        recorder.record(Event::SensorSent { seq: self.seq, ts_ns: now_ns, enqueued: sent, queue_len });
        if sent {
            metrics.push_reading(self.sensor_type, reading);
        }
        self.next_deadline = self.next_deadline.saturating_add(self.sampling_rate_ms * 1_000_000);
        self.seq = self.seq.wrapping_add(1);
        true
    }
}

/// One completed turn of a sensor task: when it released and how the hand-off
/// ended.
pub struct SensorCycle {
    pub tick_ns: u64,
    pub outcome: SendOutcome,
}

/// The task after a run of turns, first turn first.
pub open spec fn after_cycles(s: SensorState, cycles: Seq<SensorCycle>) -> SensorState
    decreases cycles.len(),
{
    if cycles.len() == 0 {
        s
    } else {
        after_cycles(s, cycles.drop_last()).after_release(cycles.last().tick_ns).after_complete(
            cycles.last().outcome,
        )
    }
}

/// No turn of `cycles` found the queue disconnected.
pub open spec fn all_connected(cycles: Seq<SensorCycle>) -> bool {
    forall|i: int| 0 <= i < cycles.len() ==> (#[trigger] cycles[i]).outcome != SendOutcome::Disconnected
}

/// The samples of a sensor task are numbered without a gap: while the queue
/// stays connected, each turn raises the sample number by exactly one, so the
/// sample of turn `k` (counted from zero) carries the number `s.seq + k`, in
/// its release event, in the sample itself and in its hand-off event.
pub proof fn lemma_seq_counts_cycles(s: SensorState, cycles: Seq<SensorCycle>)
    requires
        all_connected(cycles),
        s.seq + cycles.len() <= u64::MAX,
    ensures
        after_cycles(s, cycles).seq == s.seq + cycles.len(),
        after_cycles(s, cycles).release_event(0).seq() == s.seq + cycles.len(),
        after_cycles(s, cycles).sent_event(SendOutcome::Sent, 0, 0).seq() == s.seq + cycles.len(),
    decreases cycles.len(),
{
    if cycles.len() > 0 {
        assert(all_connected(cycles.drop_last())) by {
            assert forall|i: int| 0 <= i < cycles.drop_last().len() implies (
            #[trigger] cycles.drop_last()[i]).outcome != SendOutcome::Disconnected by {
                assert(cycles.drop_last()[i] == cycles[i]);
            }
        }
        lemma_seq_counts_cycles(s, cycles.drop_last());
        assert(cycles[cycles.len() - 1].outcome != SendOutcome::Disconnected);
    }
}

/// With a sampling period of zero every release is late: the first deadline
/// is the start of the task and never moves, so any later look at the clock
/// finds it passed and `await_release` counts a scheduling miss.
pub proof fn lemma_zero_period_always_late(
    name: Seq<char>,
    sensor_type: SensorType,
    start_ns: u64,
    cycles: Seq<SensorCycle>,
    now_ns: u64,
)
    requires
        now_ns >= start_ns,
    ensures
        after_cycles(SensorState::fresh(name, 0, sensor_type, start_ns), cycles).is_late(now_ns),
        after_cycles(SensorState::fresh(name, 0, sensor_type, start_ns), cycles).next_deadline
            == start_ns,
        after_cycles(SensorState::fresh(name, 0, sensor_type, start_ns), cycles).sampling_rate_ms
            == 0,
    decreases cycles.len(),
{
    if cycles.len() > 0 {
        lemma_zero_period_always_late(name, sensor_type, start_ns, cycles.drop_last(), now_ns);
    }
}

} // verus!
