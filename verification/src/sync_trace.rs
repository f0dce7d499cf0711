//! What holds of a telemetry sink over a whole run of calls.

use vstd::prelude::*;
use vstd::wrapping::u64_specs::wrapping_add;
use crate::counter_map::counter_at;
use crate::sync_manager::{SinkState, SyncMode};

verus! {

/// One call on a sink: a producer call with its arguments, or the drain
/// worker taking a record out.
pub enum SinkCall {
    Sample { sensor_id: u16, ts_ns: u64 },
    Jitter { sensor_id: u16, jitter_us: u64, ts_ns: u64 },
    ProcMiss { ts_ns: u64 },
    TxDrop { ts_ns: u64 },
    RxLatency { latency_us: u64, ts_ns: u64 },
    Custom { code: u16, ts_ns: u64 },
    Pop,
}

/// The sink after one call.
pub open spec fn after_call(s: SinkState, call: SinkCall) -> SinkState {
    match call {
        SinkCall::Sample { sensor_id, ts_ns } => s.after_sample(sensor_id, ts_ns),
        SinkCall::Jitter { sensor_id, jitter_us, ts_ns } => s.after_jitter(
            sensor_id,
            jitter_us,
            ts_ns,
        ),
        SinkCall::ProcMiss { ts_ns } => s.after_proc_miss(ts_ns),
        SinkCall::TxDrop { ts_ns } => s.after_tx_drop(ts_ns),
        SinkCall::RxLatency { latency_us, ts_ns } => s.after_rx_latency(latency_us, ts_ns),
        SinkCall::Custom { code, ts_ns } => s.after_custom(code, ts_ns),
        SinkCall::Pop => s.after_pop(),
    }
}

/// The sink after a run of calls, first call first.
pub open spec fn after_calls(s: SinkState, calls: Seq<SinkCall>) -> SinkState
    decreases calls.len(),
{
    if calls.len() == 0 {
        s
    } else {
        after_call(after_calls(s, calls.drop_last()), calls.last())
    }
}

/// How many of `calls` are producer calls.
pub open spec fn producer_calls(calls: Seq<SinkCall>) -> nat
    decreases calls.len(),
{
    if calls.len() == 0 {
        0
    } else {
        producer_calls(calls.drop_last()) + if calls.last() is Pop {
            0nat
        } else {
            1nat
        }
    }
}

/// How many of `calls` report a sample.
pub open spec fn sample_calls(calls: Seq<SinkCall>) -> nat
    decreases calls.len(),
{
    if calls.len() == 0 {
        0
    } else {
        sample_calls(calls.drop_last()) + if calls.last() is Sample {
            1nat
        } else {
            0nat
        }
    }
}

/// How many records the drain worker took out of the queue during `calls`,
/// started on sink `s`: one for each `Pop` that found the queue non-empty.
pub open spec fn records_taken(s: SinkState, calls: Seq<SinkCall>) -> nat
    decreases calls.len(),
{
    if calls.len() == 0 {
        0
    } else {
        records_taken(s, calls.drop_last()) + if calls.last() is Pop && after_calls(
            s,
            calls.drop_last(),
        ).queue.len() > 0 {
            1nat
        } else {
            0nat
        }
    }
}

/// The sum of the counters under the keys below `bound`.
pub open spec fn counter_total_below(values: Map<u16, u64>, bound: nat) -> nat
    decreases bound,
{
    if bound == 0 {
        0
    } else {
        counter_total_below(values, (bound - 1) as nat) + counter_at(
            values,
            (bound - 1) as u16,
        ) as nat
    }
}

/// The sum of the counters under all keys.
pub open spec fn counter_total(values: Map<u16, u64>) -> nat {
    counter_total_below(values, 0x1_0000)
}

proof fn lemma_total_after_insert(values: Map<u16, u64>, key: u16, v: u64, bound: nat)
    requires
        bound <= 0x1_0000,
    ensures
        counter_total_below(values.insert(key, v), bound) == counter_total_below(values, bound) + (
        if key < bound {
            v - counter_at(values, key)
        } else {
            0
        }),
    decreases bound,
{
    if bound > 0 {
        lemma_total_after_insert(values, key, v, (bound - 1) as nat);
    }
}

proof fn lemma_counter_within_total(values: Map<u16, u64>, key: u16, bound: nat)
    requires
        key < bound <= 0x1_0000,
    ensures
        counter_at(values, key) <= counter_total_below(values, bound),
    decreases bound,
{
    if key < bound - 1 {
        lemma_counter_within_total(values, key, (bound - 1) as nat);
    }
}

/// A call never lowers the count of dropped records, short of the counter's
/// wrap at the top of `u64`.
pub proof fn lemma_dropped_logs_never_decrease(s: SinkState, call: SinkCall)
    requires
        s.dropped_logs < u64::MAX,
    ensures
        after_call(s, call).dropped_logs >= s.dropped_logs,
{
}

/// A producer call that finds the lock-free queue full leaves the queue as
/// it is and counts one dropped record: the caller is never made to wait
/// for room.
pub proof fn lemma_full_queue_drops(s: SinkState, call: SinkCall)
    requires
        s.mode == SyncMode::LockFree,
        s.queue.len() >= s.capacity,
        !(call is Pop),
    ensures
        after_call(s, call).queue == s.queue,
        after_call(s, call).dropped_logs == wrapping_add(s.dropped_logs, 1),
{
}

/// Under the atomics strategy, and under the mutex strategy alike, the
/// per-sensor sample counters of a new sink add up to the number of
/// `record_sample` calls made on it: no call is lost and none is dropped.
pub proof fn lemma_counting_sink_counts_every_sample(mode: SyncMode, capacity: nat, calls: Seq<SinkCall>)
    requires
        mode != SyncMode::LockFree,
        sample_calls(calls) <= u64::MAX,
    ensures
        counter_total(after_calls(SinkState::fresh(mode, capacity), calls).counters.sample_count)
            == sample_calls(calls),
        after_calls(SinkState::fresh(mode, capacity), calls).dropped_logs == 0,
        after_calls(SinkState::fresh(mode, capacity), calls).mode == mode,
    decreases calls.len(),
{
    let start = SinkState::fresh(mode, capacity);
    if calls.len() == 0 {
        lemma_total_of_nothing(0x1_0000);
    } else {
        let before = after_calls(start, calls.drop_last());
        lemma_counting_sink_counts_every_sample(mode, capacity, calls.drop_last());
        match calls.last() {
            SinkCall::Sample { sensor_id, ts_ns } => {
                let counts = before.counters.sample_count;
                lemma_counter_within_total(counts, sensor_id, 0x1_0000);
                lemma_total_after_insert(
                    counts,
                    sensor_id,
                    wrapping_add(counter_at(counts, sensor_id), 1),
                    0x1_0000,
                );
            },
            _ => {},
        }
    }
}

proof fn lemma_total_of_nothing(bound: nat)
    ensures
        counter_total_below(Map::<u16, u64>::empty(), bound) == 0,
    decreases bound,
{
    if bound > 0 {
        lemma_total_of_nothing((bound - 1) as nat);
    }
}

/// Under the lock-free strategy every producer call on a new sink ends in
/// exactly one place: a record the drain worker took out, a record still
/// queued, or a counted drop. Once the queue has been emptied, the records
/// taken out and the drop count add up to the producer calls.
pub proof fn lemma_lock_free_accounts_for_every_call(capacity: nat, calls: Seq<SinkCall>)
    requires
        producer_calls(calls) <= u64::MAX,
    ensures
        ({
            let start = SinkState::fresh(SyncMode::LockFree, capacity);
            let end = after_calls(start, calls);
            &&& end.mode == SyncMode::LockFree
            &&& end.capacity == capacity
            &&& end.queue.len() <= capacity
            &&& producer_calls(calls) == records_taken(start, calls) + end.queue.len()
                + end.dropped_logs
        }),
    decreases calls.len(),
{
    if calls.len() > 0 {
        lemma_lock_free_accounts_for_every_call(capacity, calls.drop_last());
    }
}

} // verus!
