//! The telemetry sink: three interchangeable ways of recording diagnostics.
//!
//! A sink is built for one strategy and keeps the state that strategy needs:
//! one aggregate of counters, per-sensor counters in a concurrent map, or a
//! bounded queue of raw records that a drain worker empties. No operation
//! waits: a record that finds the queue full is counted as dropped.
//!
//! The sink is written for a single owner. Each operation takes the current
//! time as an argument where the record carries one.

use vstd::prelude::*;
use vstd::wrapping::u64_specs::wrapping_add;
use std::collections::HashMap;
use crossbeam_queue::ArrayQueue;
use crate::counter_map::{
    counter_at, counter_map_add, counter_map_entries, counter_map_new, counter_values, entry_keys,
    no_repeated_key, CounterEntries, CounterMap,
};
use crate::log_queue::{
    log_queue_capacity, log_queue_items, log_queue_len, log_queue_limit, log_queue_new,
    log_queue_pop, log_queue_push,
};

verus! {

broadcast use vstd::std_specs::hash::group_hash_axioms;

/// Records the lock-free queue holds unless another capacity is asked for.
pub const LOG_CAPACITY: usize = 8192;

/// The largest capacity a lock-free queue may be built with.
pub const MAX_LOG_CAPACITY: usize = 0x10_0000;

/// How the sink keeps its records.
#[derive(Debug, Clone, Copy, PartialEq, Eq, Structural)]
pub enum SyncMode {
    Mutex,
    Atomics,
    LockFree,
}

/// What one raw telemetry record reports.
#[derive(Debug, Clone, Copy, PartialEq, Eq, Structural)]
pub enum LogEventKind {
    Sample { sensor_id: u16 },
    Jitter { sensor_id: u16, jitter_us: u64 },
    ProcMiss,
    TxDrop,
    RxLatency { latency_us: u64 },
    Custom { code: u16 },
}

/// One queued telemetry record: its place in the sink's total order, the time
/// it was made (nanoseconds on the caller's monotonic clock), what it reports
/// and the magnitude that goes with it.
#[derive(Debug, Clone, Copy, PartialEq, Eq, Structural)]
pub struct RawLog {
    pub seq: u64,
    pub ts_ns: u64,
    pub kind: LogEventKind,
    pub value: u64,
}

/// The counters of the two counting strategies, as mathematical maps.
pub struct Counters {
    pub sample_count: Map<u16, u64>,
    pub jitter_sum: Map<u16, u64>,
    pub proc_miss_count: u64,
    pub tx_drop_count: u64,
}

impl Counters {
    /// No sensor counted, no miss, no drop.
    pub open spec fn empty() -> Counters {
        Counters {
            sample_count: Map::empty(),
            jitter_sum: Map::empty(),
            proc_miss_count: 0,
            tx_drop_count: 0,
        }
    }

    /// One more sample of sensor `sensor_id`.
    pub open spec fn add_sample(self, sensor_id: u16) -> Counters {
        Counters {
            sample_count: self.sample_count.insert(
                sensor_id,
                wrapping_add(counter_at(self.sample_count, sensor_id), 1),
            ),
            ..self
        }
    }

    /// `jitter_us` more accumulated jitter for sensor `sensor_id`.
    pub open spec fn add_jitter(self, sensor_id: u16, jitter_us: u64) -> Counters {
        Counters {
            jitter_sum: self.jitter_sum.insert(
                sensor_id,
                wrapping_add(counter_at(self.jitter_sum, sensor_id), jitter_us),
            ),
            ..self
        }
    }

    /// One more scheduling or computation miss.
    pub open spec fn add_proc_miss(self) -> Counters {
        Counters { proc_miss_count: wrapping_add(self.proc_miss_count, 1), ..self }
    }

    /// One more dropped hand-off.
    pub open spec fn add_tx_drop(self) -> Counters {
        Counters { tx_drop_count: wrapping_add(self.tx_drop_count, 1), ..self }
    }
}

/// The aggregate that the mutex strategy keeps: per-sensor sample counts and
/// jitter sums, and the two scalar counters.
#[derive(Debug)]
pub struct Diagnostics {
    pub sample_count: HashMap<u16, u64>,
    pub jitter_sum: HashMap<u16, u64>,
    pub proc_miss_count: u64,
    pub tx_drop_count: u64,
}

impl View for Diagnostics {
    type V = Counters;

    open spec fn view(&self) -> Counters {
        Counters {
            sample_count: self.sample_count@,
            jitter_sum: self.jitter_sum@,
            proc_miss_count: self.proc_miss_count,
            tx_drop_count: self.tx_drop_count,
        }
    }
}

impl Default for Diagnostics {
    fn default() -> (d: Diagnostics)
        ensures
            d@ == Counters::empty(),
    {
        Diagnostics {
            sample_count: HashMap::new(),
            jitter_sum: HashMap::new(),
            proc_miss_count: 0,
            tx_drop_count: 0,
        }
    }
}

impl Clone for Diagnostics {
    fn clone(&self) -> (d: Diagnostics)
        ensures
            d@ == self@,
    {
        Diagnostics {
            sample_count: self.sample_count.clone(),
            jitter_sum: self.jitter_sum.clone(),
            proc_miss_count: self.proc_miss_count,
            tx_drop_count: self.tx_drop_count,
        }
    }
}

/// Adds `delta` to the counter under `key`, starting it at zero if it is new.
fn bump(counts: &mut HashMap<u16, u64>, key: u16, delta: u64)
    ensures
        final(counts)@ == old(counts)@.insert(
            key,
            wrapping_add(counter_at(old(counts)@, key), delta),
        ),
{
    let current = match counts.get(&key) {
        Some(v) => *v,
        None => 0,
    };
    counts.insert(key, current.wrapping_add(delta));
}

/// What a sink holds, by strategy.
enum Store {
    Mutex { diagnostics: Diagnostics },
    Atomics { samples: CounterMap, jitter: CounterMap, proc_miss: u64, tx_drops: u64 },
    LockFree { queue: ArrayQueue<RawLog>, dropped_logs: u64 },
}

/// The telemetry sink.
pub struct SyncManager {
    store: Store,
    consumer_attached: bool,
    consumer_running: bool,
    seq_counter: u64,
}

/// The mathematical state of a sink.
pub struct SinkState {
    /// The strategy the sink was built for.
    pub mode: SyncMode,
    /// The counters of the mutex and atomics strategies.
    pub counters: Counters,
    /// The queued records of the lock-free strategy, oldest first.
    pub queue: Seq<RawLog>,
    /// How many records the queue takes.
    pub capacity: nat,
    /// Records refused by a full queue.
    pub dropped_logs: u64,
    /// The sequence number the next queued record gets.
    pub seq_counter: u64,
    /// A drain worker has been started and not yet joined.
    pub consumer_attached: bool,
    /// The flag that keeps a drain worker polling.
    pub consumer_running: bool,
}

impl SinkState {
    /// The state of a sink right after construction.
    pub open spec fn fresh(mode: SyncMode, capacity: nat) -> SinkState {
        SinkState {
            mode,
            counters: Counters::empty(),
            queue: Seq::empty(),
            capacity: if mode == SyncMode::LockFree {
                capacity
            } else {
                0
            },
            dropped_logs: 0,
            seq_counter: 1,
            consumer_attached: false,
            consumer_running: false,
        }
    }

    /// The record that the next producer call would queue.
    pub open spec fn next_log(self, kind: LogEventKind, value: u64, ts_ns: u64) -> RawLog {
        RawLog { seq: self.seq_counter, ts_ns, kind, value }
    }

    /// A producer call under the lock-free strategy: the record takes the next
    /// sequence number and joins the queue, or is counted as dropped when the
    /// queue is full.
    pub open spec fn log(self, kind: LogEventKind, value: u64, ts_ns: u64) -> SinkState {
        if self.queue.len() < self.capacity {
            SinkState {
                queue: self.queue.push(self.next_log(kind, value, ts_ns)),
                seq_counter: wrapping_add(self.seq_counter, 1),
                ..self
            }
        } else {
            SinkState {
                dropped_logs: wrapping_add(self.dropped_logs, 1),
                seq_counter: wrapping_add(self.seq_counter, 1),
                ..self
            }
        }
    }

    /// The state after `record_sample`.
    pub open spec fn after_sample(self, sensor_id: u16, ts_ns: u64) -> SinkState {
        match self.mode {
            SyncMode::LockFree => self.log(LogEventKind::Sample { sensor_id }, 0, ts_ns),
            _ => SinkState { counters: self.counters.add_sample(sensor_id), ..self },
        }
    }

    /// The state after `record_jitter`.
    pub open spec fn after_jitter(self, sensor_id: u16, jitter_us: u64, ts_ns: u64) -> SinkState {
        match self.mode {
            SyncMode::LockFree => self.log(
                LogEventKind::Jitter { sensor_id, jitter_us },
                jitter_us,
                ts_ns,
            ),
            _ => SinkState { counters: self.counters.add_jitter(sensor_id, jitter_us), ..self },
        }
    }

    /// The state after `record_proc_miss`.
    pub open spec fn after_proc_miss(self, ts_ns: u64) -> SinkState {
        match self.mode {
            SyncMode::LockFree => self.log(LogEventKind::ProcMiss, 0, ts_ns),
            _ => SinkState { counters: self.counters.add_proc_miss(), ..self },
        }
    }

    /// The state after `record_tx_drop`.
    pub open spec fn after_tx_drop(self, ts_ns: u64) -> SinkState {
        match self.mode {
            SyncMode::LockFree => self.log(LogEventKind::TxDrop, 0, ts_ns),
            _ => SinkState { counters: self.counters.add_tx_drop(), ..self },
        }
    }

    /// The state after `record_rx_latency`: only the lock-free strategy keeps
    /// latencies.
    pub open spec fn after_rx_latency(self, latency_us: u64, ts_ns: u64) -> SinkState {
        match self.mode {
            SyncMode::LockFree => self.log(
                LogEventKind::RxLatency { latency_us },
                latency_us,
                ts_ns,
            ),
            _ => self,
        }
    }

    /// The state after `record_custom`: only the lock-free strategy keeps
    /// custom codes.
    pub open spec fn after_custom(self, code: u16, ts_ns: u64) -> SinkState {
        match self.mode {
            SyncMode::LockFree => self.log(LogEventKind::Custom { code }, 0, ts_ns),
            _ => self,
        }
    }

    /// The state after the oldest queued record has been taken out.
    pub open spec fn after_pop(self) -> SinkState {
        if self.queue.len() > 0 {
            SinkState { queue: self.queue.subrange(1, self.queue.len() as int), ..self }
        } else {
            self
        }
    }
}

impl View for SyncManager {
    type V = SinkState;

    closed spec fn view(&self) -> SinkState {
        match self.store {
            Store::Mutex { diagnostics } => SinkState {
                mode: SyncMode::Mutex,
                counters: diagnostics@,
                queue: Seq::empty(),
                capacity: 0,
                dropped_logs: 0,
                seq_counter: self.seq_counter,
                consumer_attached: self.consumer_attached,
                consumer_running: self.consumer_running,
            },
            Store::Atomics { samples, jitter, proc_miss, tx_drops } => SinkState {
                mode: SyncMode::Atomics,
                counters: Counters {
                    sample_count: counter_values(samples),
                    jitter_sum: counter_values(jitter),
                    proc_miss_count: proc_miss,
                    tx_drop_count: tx_drops,
                },
                queue: Seq::empty(),
                capacity: 0,
                dropped_logs: 0,
                seq_counter: self.seq_counter,
                consumer_attached: self.consumer_attached,
                consumer_running: self.consumer_running,
            },
            Store::LockFree { queue, dropped_logs } => SinkState {
                mode: SyncMode::LockFree,
                counters: Counters::empty(),
                queue: log_queue_items(queue),
                capacity: log_queue_limit(queue),
                dropped_logs,
                seq_counter: self.seq_counter,
                consumer_attached: self.consumer_attached,
                consumer_running: self.consumer_running,
            },
        }
    }
}

impl SyncManager {
    /// A sink for `mode`; under the lock-free strategy its queue takes
    /// `LOG_CAPACITY` records.
    pub fn new(mode: SyncMode) -> (s: SyncManager)
        ensures
            s@ == SinkState::fresh(mode, LOG_CAPACITY as nat),
    {
        SyncManager::with_capacity(mode, LOG_CAPACITY)
    }

    /// A sink for `mode` whose lock-free queue takes `capacity` records. The
    /// other strategies keep no queue and ignore `capacity`.
    pub fn with_capacity(mode: SyncMode, capacity: usize) -> (s: SyncManager)
        requires
            0 < capacity <= MAX_LOG_CAPACITY,
        ensures
            s@ == SinkState::fresh(mode, capacity as nat),
    {
        let store = match mode {
            SyncMode::Mutex => Store::Mutex { diagnostics: Diagnostics::default() },
            SyncMode::Atomics => Store::Atomics {
                samples: counter_map_new(),
                jitter: counter_map_new(),
                proc_miss: 0,
                tx_drops: 0,
            },
            SyncMode::LockFree => Store::LockFree {
                queue: log_queue_new(capacity),
                dropped_logs: 0,
            },
        };
        SyncManager { store, consumer_attached: false, consumer_running: false, seq_counter: 1 }
    }

    /// The strategy this sink was built for.
    pub fn mode(&self) -> (m: SyncMode)
        ensures
            m == self@.mode,
    {
        match &self.store {
            Store::Mutex { .. } => SyncMode::Mutex,
            Store::Atomics { .. } => SyncMode::Atomics,
            Store::LockFree { .. } => SyncMode::LockFree,
        }
    }

    /// Queues one record under the lock-free strategy.
    fn push_log(&mut self, kind: LogEventKind, value: u64, now_ns: u64)
        requires
            old(self)@.mode == SyncMode::LockFree,
        ensures
            final(self)@ == old(self)@.log(kind, value, now_ns),
    {
        let seq = self.seq_counter;
        self.seq_counter = seq.wrapping_add(1);
        match &mut self.store {
            Store::LockFree { queue, dropped_logs } => {
                let raw = RawLog { seq, ts_ns: now_ns, kind, value };
                if log_queue_push(queue, raw).is_err() {
                    *dropped_logs = dropped_logs.wrapping_add(1);
                }
            },
            _ => {},
        }
    }

    /// Records that sensor `sensor_id` delivered a sample.
    pub fn record_sample(&mut self, sensor_id: u16, now_ns: u64)
        ensures
            final(self)@ == old(self)@.after_sample(sensor_id, now_ns),
    {
        match &mut self.store {
            Store::Mutex { diagnostics } => {
                bump(&mut diagnostics.sample_count, sensor_id, 1);
            },
            Store::Atomics { samples, .. } => {
                counter_map_add(samples, sensor_id, 1);
            },
            Store::LockFree { .. } => {
                self.push_log(LogEventKind::Sample { sensor_id }, 0, now_ns);
            },
        }
    }
    /// Records how long a packet took from the processor to the dispatcher.
    /// Only the lock-free strategy keeps it; the others ignore the call.
    pub fn record_rx_latency(&mut self, latency_us: u64, now_ns: u64)
        ensures
            final(self)@ == old(self)@.after_rx_latency(latency_us, now_ns),
    {
        match &self.store {
            Store::LockFree { .. } => {
                self.push_log(LogEventKind::RxLatency { latency_us }, latency_us, now_ns);
            },
            _ => {},
        }
    }

    /// Records `jitter_us` of release jitter for sensor `sensor_id`.
    pub fn record_jitter(&mut self, sensor_id: u16, jitter_us: u64, now_ns: u64)
        ensures
            final(self)@ == old(self)@.after_jitter(sensor_id, jitter_us, now_ns),
    {
        match &mut self.store {
            Store::Mutex { diagnostics } => {
                bump(&mut diagnostics.jitter_sum, sensor_id, jitter_us);
            },
            Store::Atomics { jitter, .. } => {
                counter_map_add(jitter, sensor_id, jitter_us);
            },
            Store::LockFree { .. } => {
                self.push_log(LogEventKind::Jitter { sensor_id, jitter_us }, jitter_us, now_ns);
            },
        }
    }

    /// Records a missed deadline: a late sensor release, a processor overrun or
    /// an actuator overrun.
    pub fn record_proc_miss(&mut self, now_ns: u64)
        ensures
            final(self)@ == old(self)@.after_proc_miss(now_ns),
    {
        match &mut self.store {
            Store::Mutex { diagnostics } => {
                diagnostics.proc_miss_count = diagnostics.proc_miss_count.wrapping_add(1);
            },
            Store::Atomics { proc_miss, .. } => {
                *proc_miss = proc_miss.wrapping_add(1);
            },
            Store::LockFree { .. } => {
                self.push_log(LogEventKind::ProcMiss, 0, now_ns);
            },
        }
    }

    /// Records a hand-off that was dropped because a pipeline queue was full.
    pub fn record_tx_drop(&mut self, now_ns: u64)
        ensures
            final(self)@ == old(self)@.after_tx_drop(now_ns),
    {
        match &mut self.store {
            Store::Mutex { diagnostics } => {
                diagnostics.tx_drop_count = diagnostics.tx_drop_count.wrapping_add(1);
            },
            Store::Atomics { tx_drops, .. } => {
                *tx_drops = tx_drops.wrapping_add(1);
            },
            Store::LockFree { .. } => {
                self.push_log(LogEventKind::TxDrop, 0, now_ns);
            },
        }
    }

    /// Records a custom diagnostic code. Only the lock-free strategy keeps it;
    /// the others ignore the call.
    pub fn record_custom(&mut self, code: u16, now_ns: u64)
        ensures
            final(self)@ == old(self)@.after_custom(code, now_ns),
    {
        match &self.store {
            Store::LockFree { .. } => {
                self.push_log(LogEventKind::Custom { code }, 0, now_ns);
            },
            _ => {},
        }
    }

    /// A copy of the counters, under the mutex strategy.
    pub fn snapshot_mutex(&self) -> (snapshot: Option<Diagnostics>)
        ensures
            snapshot is Some <==> self@.mode == SyncMode::Mutex,
            snapshot matches Some(d) ==> d@ == self@.counters,
    {
        match &self.store {
            Store::Mutex { diagnostics } => Some(diagnostics.clone()),
            _ => None,
        }
    }

    /// The per-sensor sample counts in no particular order, then the miss and
    /// drop counters, under the atomics strategy.
    pub fn snapshot_atomics(&self) -> (snapshot: Option<(CounterEntries, u64, u64)>)
        ensures
            snapshot is Some <==> self@.mode == SyncMode::Atomics,
            snapshot matches Some(s) ==> {
                &&& entry_keys(s.0@) == self@.counters.sample_count.dom()
                &&& forall|i: int|
                    0 <= i < s.0@.len() ==> self@.counters.sample_count[#[trigger] s.0@[i].0]
                        == s.0@[i].1
                &&& no_repeated_key(s.0@)
                &&& s.1 == self@.counters.proc_miss_count
                &&& s.2 == self@.counters.tx_drop_count
            },
    {
        match &self.store {
            Store::Atomics { samples, proc_miss, tx_drops, .. } => Some(
                (counter_map_entries(samples), *proc_miss, *tx_drops),
            ),
            _ => None,
        }
    }

    /// How many records a full queue has refused, under the lock-free strategy.
    pub fn dropped_log_count(&self) -> (count: Option<u64>)
        ensures
            count == if self@.mode == SyncMode::LockFree {
                Some(self@.dropped_logs)
            } else {
                None
            },
    {
        match &self.store {
            Store::LockFree { dropped_logs, .. } => Some(*dropped_logs),
            _ => None,
        }
    }

    /// How many records wait in the queue, under the lock-free strategy.
    pub fn queue_len(&self) -> (len: Option<usize>)
        ensures
            len is Some <==> self@.mode == SyncMode::LockFree,
            len matches Some(n) ==> n == self@.queue.len(),
    {
        match &self.store {
            Store::LockFree { queue, .. } => Some(log_queue_len(queue)),
            _ => None,
        }
    }

    /// How many records the queue takes, under the lock-free strategy.
    pub fn queue_capacity(&self) -> (capacity: Option<usize>)
        ensures
            capacity is Some <==> self@.mode == SyncMode::LockFree,
            capacity matches Some(n) ==> n == self@.capacity,
    {
        match &self.store {
            Store::LockFree { queue, .. } => Some(log_queue_capacity(queue)),
            _ => None,
        }
    }

    /// Takes the oldest queued record out, if there is one. The counting
    /// strategies queue nothing and always answer `None`.
    pub fn pop_log(&mut self) -> (raw: Option<RawLog>)
        ensures
            final(self)@ == old(self)@.after_pop(),
            raw == if old(self)@.queue.len() > 0 {
                Some(old(self)@.queue[0])
            } else {
                None
            },
    {
        match &mut self.store {
            Store::LockFree { queue, .. } => log_queue_pop(queue),
            _ => None,
        }
    }

    /// Whether the flag that keeps a drain worker polling is set.
    pub fn consumer_running(&self) -> (running: bool)
        ensures
            running == self@.consumer_running,
    {
        self.consumer_running
    }

    /// Marks the drain worker as started and sets its polling flag. Fails
    /// under the counting strategies, and when a worker is already attached.
    pub fn start_log_consumer(&mut self) -> (r: Result<(), String>)
        ensures
            r is Ok <==> old(self)@.mode == SyncMode::LockFree && !old(self)@.consumer_attached,
            r is Ok ==> final(self)@ == (SinkState {
                consumer_attached: true,
                consumer_running: true,
                ..old(self)@
            }),
            r matches Err(msg) ==> final(self)@ == old(self)@ && msg@ == if old(self)@.mode
                == SyncMode::LockFree {
                "consumer already running"@
            } else {
                "start_log_consumer only valid for LockFree"@
            },
    {
        match &self.store {
            Store::LockFree { .. } => {},
            _ => {
                return Err("start_log_consumer only valid for LockFree".to_string());
            },
        }
        if self.consumer_attached {
            return Err("consumer already running".to_string());
        }
        self.consumer_running = true;
        self.consumer_attached = true;
        Ok(())
    }

    /// Clears the polling flag and detaches the drain worker, which the caller
    /// then joins. Fails under the counting strategies.
    pub fn stop_consumer(&mut self) -> (r: Result<(), String>)
        ensures
            r is Ok <==> old(self)@.mode == SyncMode::LockFree,
            r is Ok ==> final(self)@ == (SinkState {
                consumer_attached: false,
                consumer_running: false,
                ..old(self)@
            }),
            r matches Err(msg) ==> final(self)@ == old(self)@ && msg@
                == "stop_consumer only valid for LockFree mode"@,
    {
        match &self.store {
            Store::LockFree { .. } => {},
            _ => {
                return Err("stop_consumer only valid for LockFree mode".to_string());
            },
        }
        self.consumer_running = false;
        self.consumer_attached = false;
        Ok(())
    }
}

} // verus!
