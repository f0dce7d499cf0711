//! The drain side of the lock-free telemetry strategy.
//!
//! A drain worker empties the sink's queue in batches and turns each raw record
//! into a row of the sync log. Writing the rows, flushing and sleeping are the
//! caller's part: each step hands back the rows to append and what to do next.

use vstd::prelude::*;
use vstd::string::StringExecFns;
use std::collections::HashMap;
use crate::sync_manager::{LogEventKind, RawLog, SinkState, SyncManager};
use crate::text::{decimal, push_decimal};

verus! {

broadcast use vstd::std_specs::hash::group_hash_axioms;

/// The most records a worker takes out of the queue in one batch.
pub const DRAIN_BATCH: usize = 256;

/// A worker flushes once this many non-empty batches have been written.
pub const FLUSH_BATCHES: usize = 8;

/// How long a worker sleeps after it found the queue empty, in milliseconds.
pub const CONSUMER_POLL_MS: u64 = 5;

/// The column names of the sync log.
pub const SYNC_CSV_HEADER: &'static str = "seq,ts_epoch_us,age_us,event,value";

/// One row of the sync log.
#[derive(Debug, Clone, PartialEq, Eq)]
pub struct CsvRow {
    pub seq: u64,
    pub ts_epoch_us: u64,
    pub age_us: u64,
    pub event: String,
    pub value: u64,
}

/// A row of the sync log with its event column as a sequence of characters.
pub struct RowText {
    pub seq: u64,
    pub ts_epoch_us: u64,
    pub age_us: u64,
    pub event: Seq<char>,
    pub value: u64,
}

impl View for CsvRow {
    type V = RowText;

    open spec fn view(&self) -> RowText {
        RowText {
            seq: self.seq,
            ts_epoch_us: self.ts_epoch_us,
            age_us: self.age_us,
            event: self.event@,
            value: self.value,
        }
    }
}

/// The event column of a record. A sample is written under its sensor's name
/// where `names` knows the sensor, and as `sensor:<id>` where it does not.
pub open spec fn event_label(kind: LogEventKind, names: Map<u16, String>) -> Seq<char> {
    match kind {
        LogEventKind::Sample { sensor_id } => if names.contains_key(sensor_id) {
            names[sensor_id]@
        } else {
            "sensor:"@ + decimal(sensor_id as nat)
        },
        LogEventKind::ProcMiss => "proc_miss"@,
        LogEventKind::TxDrop => "tx_drop"@,
        LogEventKind::Jitter { sensor_id, jitter_us } => "jitter:"@ + decimal(jitter_us as nat)
            + "us@sensor:"@ + decimal(sensor_id as nat),
        LogEventKind::Custom { code } => "custom:"@ + decimal(code as nat),
        LogEventKind::RxLatency { latency_us } => "rx_latency:"@ + decimal(latency_us as nat)
            + "us"@,
    }
}

/// Microseconds from `ts_ns` to `now_ns`, zero if `now_ns` is the earlier.
pub open spec fn age_micros(ts_ns: u64, now_ns: u64) -> u64 {
    if now_ns >= ts_ns {
        ((now_ns - ts_ns) / 1000) as u64
    } else {
        0
    }
}

/// The row that a record becomes when it is drained at wall-clock time
/// `now_epoch_us` and monotonic time `now_ns`.
pub open spec fn row_of(
    raw: RawLog,
    names: Map<u16, String>,
    now_epoch_us: u64,
    now_ns: u64,
) -> RowText {
    RowText {
        seq: raw.seq,
        ts_epoch_us: now_epoch_us,
        age_us: age_micros(raw.ts_ns, now_ns),
        event: event_label(raw.kind, names),
        value: raw.value,
    }
}

/// The rows of the first `count` records of `queue`, in order.
pub open spec fn rows_of(
    queue: Seq<RawLog>,
    count: nat,
    names: Map<u16, String>,
    now_epoch_us: u64,
    now_ns: u64,
) -> Seq<RowText> {
    Seq::new(count, |i: int| row_of(queue[i], names, now_epoch_us, now_ns))
}

/// The views of `rows`, in order.
pub open spec fn row_texts(rows: Seq<CsvRow>) -> Seq<RowText> {
    Seq::new(rows.len(), |i: int| rows[i]@)
}

/// The names under which the samples of the three sensors are logged, keyed
/// by sensor id.
pub fn sensor_name_map() -> (names: HashMap<u16, String>)
    ensures
        names@.dom() == set![1u16, 2u16, 3u16],
        names@[1u16]@ == "Force"@,
        names@[2u16]@ == "Position"@,
        names@[3u16]@ == "Temperature"@,
{
    let mut names: HashMap<u16, String> = HashMap::new();
    names.insert(1, "Force".to_string());
    names.insert(2, "Position".to_string());
    names.insert(3, "Temperature".to_string());
    assert(names@.dom() =~= set![1u16, 2u16, 3u16]);
    names
}

/// Writes the event column of a record.
pub fn format_event(kind: &LogEventKind, names: &HashMap<u16, String>) -> (label: String)
    ensures
        label@ == event_label(*kind, names@),
{
    match kind {
        LogEventKind::Sample { sensor_id } => {
            match names.get(sensor_id) {
                Some(name) => name.clone(),
                None => {
                    let mut label = "sensor:".to_string();
                    push_decimal(&mut label, *sensor_id as u64);
                    label
                },
            }
        },
        LogEventKind::ProcMiss => "proc_miss".to_string(),
        LogEventKind::TxDrop => "tx_drop".to_string(),
        LogEventKind::Jitter { sensor_id, jitter_us } => {
            let mut label = "jitter:".to_string();
            push_decimal(&mut label, *jitter_us);
            label.append("us@sensor:");
            push_decimal(&mut label, *sensor_id as u64);
            label
        },
        LogEventKind::Custom { code } => {
            let mut label = "custom:".to_string();
            push_decimal(&mut label, *code as u64);
            label
        },
        LogEventKind::RxLatency { latency_us } => {
            let mut label = "rx_latency:".to_string();
            push_decimal(&mut label, *latency_us);
            label.append("us");
            label
        },
    }
}

/// Turns a drained record into its row.
pub fn make_row(raw: &RawLog, names: &HashMap<u16, String>, now_epoch_us: u64, now_ns: u64) -> (row:
    CsvRow)
    ensures
        row@ == row_of(*raw, names@, now_epoch_us, now_ns),
{
    let age_us = if now_ns >= raw.ts_ns {
        (now_ns - raw.ts_ns) / 1000
    } else {
        0
    };
    CsvRow {
        seq: raw.seq,
        ts_epoch_us: now_epoch_us,
        age_us,
        event: format_event(&raw.kind, names),
        value: raw.value,
    }
}

/// How many records a drain takes out of a queue of `queued` records: all of
/// them, or at most `limit` where there is one.
pub open spec fn drain_count(queued: nat, limit: Option<usize>) -> nat {
    match limit {
        Some(most) => if queued <= most {
            queued
        } else {
            most as nat
        },
        None => queued,
    }
}

/// Whether a drain that has taken `taken` records may take another.
pub open spec fn below_limit(taken: nat, limit: Option<usize>) -> bool {
    match limit {
        Some(most) => taken < most,
        None => true,
    }
}

fn room_left(taken: usize, limit: Option<usize>) -> (room: bool)
    ensures
        room == below_limit(taken as nat, limit),
{
    match limit {
        Some(most) => taken < most,
        None => true,
    }
}

/// Takes records out of the sink's queue, oldest first, and returns their
/// rows: every queued record, or at most `limit` of them where there is one.
pub fn drain_rows(
    sync: &mut SyncManager,
    limit: Option<usize>,
    names: &HashMap<u16, String>,
    now_epoch_us: u64,
    now_ns: u64,
) -> (rows: Vec<CsvRow>)
    ensures
        rows@.len() == drain_count(old(sync)@.queue.len(), limit),
        row_texts(rows@) == rows_of(old(sync)@.queue, rows@.len(), names@, now_epoch_us, now_ns),
        final(sync)@ == (SinkState {
            queue: old(sync)@.queue.subrange(rows@.len() as int, old(sync)@.queue.len() as int),
            ..old(sync)@
        }),
{
    let mut rows: Vec<CsvRow> = Vec::new();
    let mut more = room_left(0, limit);
    let ghost start = sync@;
    assert(start.queue.subrange(0, start.queue.len() as int) =~= start.queue);
    while more
        invariant
            limit matches Some(most) ==> rows@.len() <= most,
            more ==> below_limit(rows@.len(), limit),
            rows@.len() <= start.queue.len(),
            !more ==> rows@.len() == start.queue.len() || !below_limit(rows@.len(), limit),
            row_texts(rows@) == rows_of(start.queue, rows@.len(), names@, now_epoch_us, now_ns),
            sync@ == (SinkState {
                queue: start.queue.subrange(rows@.len() as int, start.queue.len() as int),
                ..start
            }),
        decreases (if more { 1int } else { 0int }) + start.queue.len() - rows@.len(),
    {
        let ghost before = rows@;
        match sync.pop_log() {
            Some(raw) => {
                let row = make_row(&raw, names, now_epoch_us, now_ns);
                rows.push(row);
                more = room_left(rows.len(), limit);
                proof {
                    let k = before.len() as int;
                    let rest = start.queue.subrange(k, start.queue.len() as int);
                    assert(rest[0] == start.queue[k]);
                    assert(rest.subrange(1, rest.len() as int) =~= start.queue.subrange(
                        k + 1,
                        start.queue.len() as int,
                    ));
                    let want = rows_of(start.queue, rows@.len(), names@, now_epoch_us, now_ns);
                    assert forall|i: int| 0 <= i < rows@.len() implies row_texts(rows@)[i]
                        == want[i] by {
                        if i < k {
                            assert(rows@[i] == before[i]);
                            assert(row_texts(before)[i] == before[i]@);
                            assert(rows_of(start.queue, before.len(), names@, now_epoch_us, now_ns)[i]
                                == row_of(start.queue[i], names@, now_epoch_us, now_ns));
                        }
                    }
                    assert(row_texts(rows@) =~= want);
                }
            },
            None => {
                more = false;
            },
        }
    }
    rows
}

/// Where a drain worker stands in its life.
#[derive(Debug, Clone, Copy, PartialEq, Eq, Structural)]
pub enum DrainPhase {
    /// Built, not started.
    Idle,
    /// Polling the queue in batches.
    Running,
    /// Told to stop; the rest of the queue is still to be written.
    Draining,
    /// Done.
    Stopped,
}

/// What the caller does after it has appended the rows of a step.
#[derive(Debug, Clone, Copy, PartialEq, Eq, Structural)]
pub enum DrainAction {
    /// Step again at once.
    Continue,
    /// Flush the log, then step again.
    Flush,
    /// Sleep for `CONSUMER_POLL_MS`, then step again.
    Sleep,
    /// Flush the log and leave the loop.
    Finish,
}

/// The outcome of one step of a drain worker.
pub struct DrainStep {
    /// Rows to append to the log, in this order.
    pub rows: Vec<CsvRow>,
    /// What to do once they are appended.
    pub next: DrainAction,
}

/// The drain worker's bookkeeping.
pub struct DrainWorker {
    phase: DrainPhase,
    flush_counter: usize,
}

/// The mathematical state of a drain worker.
pub struct DrainState {
    pub phase: DrainPhase,
    /// Non-empty batches written since the last flush.
    pub flush_counter: nat,
}

impl View for DrainWorker {
    type V = DrainState;

    closed spec fn view(&self) -> DrainState {
        DrainState { phase: self.phase, flush_counter: self.flush_counter as nat }
    }
}

/// How many records a step of `worker` takes out of the queue of `sink`.
pub open spec fn step_take(worker: DrainState, sink: SinkState) -> nat {
    match worker.phase {
        DrainPhase::Running => if !sink.consumer_running {
            0
        } else if sink.queue.len() <= DRAIN_BATCH {
            sink.queue.len()
        } else {
            DRAIN_BATCH as nat
        },
        DrainPhase::Draining => sink.queue.len(),
        _ => 0,
    }
}

/// The worker after a step on `sink`.
pub open spec fn step_worker(worker: DrainState, sink: SinkState) -> DrainState {
    match worker.phase {
        DrainPhase::Idle => worker,
        DrainPhase::Running => if !sink.consumer_running {
            DrainState { phase: DrainPhase::Draining, ..worker }
        } else if sink.queue.len() == 0 {
            worker
        } else if worker.flush_counter + 1 >= FLUSH_BATCHES {
            DrainState { flush_counter: 0, ..worker }
        } else {
            DrainState { flush_counter: worker.flush_counter + 1, ..worker }
        },
        DrainPhase::Draining => DrainState { phase: DrainPhase::Stopped, ..worker },
        DrainPhase::Stopped => worker,
    }
}

/// What a step tells the caller to do.
pub open spec fn step_action(worker: DrainState, sink: SinkState) -> DrainAction {
    match worker.phase {
        DrainPhase::Idle => DrainAction::Finish,
        DrainPhase::Running => if !sink.consumer_running {
            DrainAction::Continue
        } else if sink.queue.len() == 0 {
            DrainAction::Sleep
        } else if worker.flush_counter + 1 >= FLUSH_BATCHES {
            DrainAction::Flush
        } else {
            DrainAction::Continue
        },
        DrainPhase::Draining => DrainAction::Finish,
        DrainPhase::Stopped => DrainAction::Finish,
    }
}

/// The sink after a step of `worker`: the records the step took are gone from
/// the front of the queue.
pub open spec fn step_sink(worker: DrainState, sink: SinkState) -> SinkState {
    SinkState {
        queue: sink.queue.subrange(step_take(worker, sink) as int, sink.queue.len() as int),
        ..sink
    }
}

/// A running worker is done two steps after the polling flag was cleared: the
/// first step notices the stop and takes nothing, the second takes every
/// record that is queued by then, whatever arrived in between, asks for the
/// last flush and leaves the worker stopped.
pub proof fn lemma_stop_drains_in_two_steps(worker: DrainState, at_stop: SinkState, later: SinkState)
    requires
        worker.phase == DrainPhase::Running,
        !at_stop.consumer_running,
    ensures
        step_take(worker, at_stop) == 0,
        step_worker(worker, at_stop).phase == DrainPhase::Draining,
        step_take(step_worker(worker, at_stop), later) == later.queue.len(),
        step_sink(step_worker(worker, at_stop), later).queue.len() == 0,
        step_action(step_worker(worker, at_stop), later) == DrainAction::Finish,
        step_worker(step_worker(worker, at_stop), later).phase == DrainPhase::Stopped,
{
}

impl DrainWorker {
    #[verifier::type_invariant]
    spec fn bounded(self) -> bool {
        self.flush_counter < FLUSH_BATCHES
    }

    /// A worker that has not started.
    pub fn new() -> (w: DrainWorker)
        ensures
            w@ == (DrainState { phase: DrainPhase::Idle, flush_counter: 0 }),
    {
        DrainWorker { phase: DrainPhase::Idle, flush_counter: 0 }
    }

    /// Where the worker stands.
    pub fn phase(&self) -> (p: DrainPhase)
        ensures
            p == self@.phase,
    {
        self.phase
    }

    /// Starts an idle worker; a worker in any other phase stays as it is.
    pub fn start(&mut self)
        ensures
            final(self)@ == if old(self)@.phase == DrainPhase::Idle {
                DrainState { phase: DrainPhase::Running, ..old(self)@ }
            } else {
                old(self)@
            },
    {
        proof {
            use_type_invariant(&*self);
        }
        if self.phase == DrainPhase::Idle {
            self.phase = DrainPhase::Running;
        }
    }

    /// One turn of the worker's loop.
    ///
    /// While running with the sink's polling flag set, takes one batch of at
    /// most `DRAIN_BATCH` records: an empty batch asks for a sleep, every
    /// `FLUSH_BATCHES`-th non-empty batch asks for a flush. Once the flag is
    /// cleared the worker turns to draining, and the step after that takes
    /// everything left and finishes.
    pub fn step(
        &mut self,
        sync: &mut SyncManager,
        names: &HashMap<u16, String>,
        now_epoch_us: u64,
        now_ns: u64,
    ) -> (out: DrainStep)
        ensures
            out.rows@.len() == step_take(old(self)@, old(sync)@),
            row_texts(out.rows@) == rows_of(
                old(sync)@.queue,
                out.rows@.len(),
                names@,
                now_epoch_us,
                now_ns,
            ),
            final(sync)@ == step_sink(old(self)@, old(sync)@),
            final(self)@ == step_worker(old(self)@, old(sync)@),
            out.next == step_action(old(self)@, old(sync)@),
    {
        proof {
            use_type_invariant(&*self);
        }
        let ghost sink = sync@;
        match self.phase {
            DrainPhase::Running => {
                if !sync.consumer_running() {
                    self.phase = DrainPhase::Draining;
                    assert(sink.queue.subrange(0, sink.queue.len() as int) =~= sink.queue);
                    let rows: Vec<CsvRow> = Vec::new();
                    assert(row_texts(rows@) =~= rows_of(sink.queue, 0, names@, now_epoch_us, now_ns));
                    DrainStep { rows, next: DrainAction::Continue }
                } else {
                    let rows = drain_rows(sync, Some(DRAIN_BATCH), names, now_epoch_us, now_ns);
                    if rows.len() == 0 {
                        DrainStep { rows, next: DrainAction::Sleep }
                    } else if self.flush_counter + 1 >= FLUSH_BATCHES {
                        self.flush_counter = 0;
                        DrainStep { rows, next: DrainAction::Flush }
                    } else {
                        self.flush_counter = self.flush_counter + 1;
                        DrainStep { rows, next: DrainAction::Continue }
                    }
                }
            },
            DrainPhase::Draining => {
                let rows = drain_rows(sync, None, names, now_epoch_us, now_ns);
                self.phase = DrainPhase::Stopped;
                DrainStep { rows, next: DrainAction::Finish }
            },
            _ => {
                assert(sink.queue.subrange(0, sink.queue.len() as int) =~= sink.queue);
                let rows: Vec<CsvRow> = Vec::new();
                assert(row_texts(rows@) =~= rows_of(sink.queue, 0, names@, now_epoch_us, now_ns));
                DrainStep { rows, next: DrainAction::Finish }
            },
        }
    }
}

} // verus!
