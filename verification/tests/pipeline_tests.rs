use rts_simulation::controller::{
    setpoint, Controller, ACK_LIMIT_US, ACTUATOR_DEADLINE_US, INSTABILITY_CODE, MAX_DT_NS, MIN_DT_NS,
};
use rts_simulation::events::{Event, EventRecorder};
use rts_simulation::feedback::{
    Feedback, FeedbackKind, FeedbackLoop, DEADLINE_MISS, FEEDBACK_CAPACITY, FEEDBACK_DEADLINE_MISS,
    FEEDBACK_DEADLINE_US, PID_CONFIG_FAILED, UNSTABLE_SENSOR,
};
use rts_simulation::log_consumer::{drain_rows, sensor_name_map};
use rts_simulation::metrics::{ActuatorType, Metrics};
use rts_simulation::multi_actuator::{actuator_name, MultiActuator, CHANNEL_CAPACITY};
use rts_simulation::orchestrator::{
    first_shutdown_step, next_shutdown_step, PipelineConfig, ShutdownStep,
};
use rts_simulation::processor::{
    threshold_action, ProcessedPacket, Processor, ThresholdAction, MISS_CONFIRM_THRESHOLD,
};
use rts_simulation::receiver::Receiving;
use rts_simulation::sensor::{
    distance, micros_between, sensor_to_id, tick_drift, SendOutcome, Sensor, SensorData,
    SensorType, MAX_SAMPLING_RATE_MS,
};
use rts_simulation::sync_manager::{LogEventKind, SyncManager, SyncMode};
use rts_simulation::transmitter::{Transmitter, DEFAULT_MAX_QUEUED};

const MS: u64 = 1_000_000;

fn kind_is_error(kind: &FeedbackKind<f64>, code: &str) -> bool {
    match kind {
        FeedbackKind::Error(c) => *c == code,
        _ => false,
    }
}

#[test]
fn sensor_ids_and_names() {
    assert_eq!(sensor_to_id(&SensorType::Force), 1);
    assert_eq!(sensor_to_id(&SensorType::Position), 2);
    assert_eq!(sensor_to_id(&SensorType::Temperature), 3);
    assert_eq!(SensorType::Force.name(), "Force");
    assert_eq!(SensorType::Position.name(), "Position");
    assert_eq!(SensorType::Temperature.name(), "Temperature");
}

#[test]
fn time_helpers() {
    assert_eq!(micros_between(1_000, 6_001_999), 6_000);
    assert_eq!(micros_between(5, 5), 0);
    assert_eq!(micros_between(10, 9), 0);
    assert_eq!(micros_between(0, u64::MAX), u64::MAX / 1000);
    assert_eq!(distance(5_000, 5_120), 120);
    assert_eq!(distance(5_120, 5_000), 120);
    assert_eq!(distance(0, u64::MAX), u64::MAX);
    assert_eq!(tick_drift(5_000, 0, 5_120_000), 120);
    assert_eq!(tick_drift(5_000, 0, 4_000_000), -1_000);
    assert_eq!(tick_drift(0, 7, 7), 0);
    assert_eq!(tick_drift(u64::MAX, 0, 0), -i64::MAX);
}

#[test]
fn sensor_sleeps_until_the_deadline_and_counts_late_releases() {
    let mut sync = SyncManager::new(SyncMode::Mutex);
    let mut metrics: Metrics<f64> = Metrics::default();
    let sensor = Sensor::new("Force", 5, SensorType::Force, 100 * MS);
    assert_eq!(sensor.name(), "Force");
    assert_eq!(sensor.sampling_rate_ms(), 5);
    assert_eq!(sensor.sensor_type(), SensorType::Force);
    assert_eq!(sensor.seq(), 1);
    // Two milliseconds into the period: three left to sleep.
    assert_eq!(sensor.await_release(102 * MS, &mut sync, &mut metrics), Some(3 * MS));
    assert_eq!(sensor.await_release(105 * MS - 1, &mut sync, &mut metrics), Some(1));
    assert_eq!(metrics.miss_sensor, 0);
    assert_eq!(sync.snapshot_mutex().unwrap().proc_miss_count, 0);
    // At the deadline and after it: a miss, no sleep.
    assert_eq!(sensor.await_release(105 * MS, &mut sync, &mut metrics), None);
    assert_eq!(sensor.await_release(109 * MS, &mut sync, &mut metrics), None);
    assert_eq!(metrics.miss_sensor, 2);
    assert_eq!(metrics.deadline_miss, 2);
    assert_eq!(metrics.miss_processor, 0);
    assert_eq!(sync.snapshot_mutex().unwrap().proc_miss_count, 2);
}

#[test]
fn sensor_cycle_numbers_samples_without_gaps() {
    let mut sync = SyncManager::new(SyncMode::Atomics);
    let mut metrics: Metrics<f64> = Metrics::default();
    let mut recorder = EventRecorder::with_capacity(64);
    let mut sensor = Sensor::new("Position", 5, SensorType::Position, 0);
    let mut seqs = Vec::new();
    for k in 1..=5u64 {
        let tick = k * 5 * MS + k * 1_000; // one microsecond later each time
        let jitter = sensor.release(tick, tick + 10, &mut sync, &mut metrics, &mut recorder);
        // Each period is 5 ms plus one microsecond.
        assert_eq!(jitter, 1);
        let data = sensor.sample(0.25 * k as f64, tick);
        assert_eq!(data.seq, k);
        assert_eq!(data.timestamp, tick);
        assert_eq!(data.sensor_type, SensorType::Position);
        assert_eq!(data.reading, 0.25 * k as f64);
        seqs.push(data.seq);
        let go_on = sensor.complete(
            SendOutcome::Sent,
            k as u32,
            data.reading,
            tick + 20,
            &mut sync,
            &mut metrics,
            &mut recorder,
        );
        assert!(go_on);
        assert_eq!(sensor.seq(), k + 1);
    }
    assert_eq!(seqs, vec![1, 2, 3, 4, 5]);
    assert_eq!(metrics.position.len(), 5);
    assert_eq!(metrics.position[4], 1.25);
    assert_eq!(metrics.jitter_us.len(), 5);
    let (samples, _, drops) = sync.snapshot_atomics().unwrap();
    assert_eq!(samples, vec![(2, 5)]);
    assert_eq!(drops, 0);
    // Events: release and hand-off alternate, each pair under one number.
    for k in 1..=5u64 {
        let tick = k * 5 * MS + k * 1_000;
        assert_eq!(
            recorder.pop(),
            Some(Event::SensorRelease {
                seq: k,
                ts_ns: tick + 10,
                sensor_type: "Position".to_string()
            })
        );
        assert_eq!(
            recorder.pop(),
            Some(Event::SensorSent { seq: k, ts_ns: tick + 20, enqueued: true, queue_len: k as u32 })
        );
    }
    assert_eq!(recorder.pop(), None);
}

#[test]
fn sensor_deadline_advances_by_one_period_per_cycle() {
    let mut sync = SyncManager::new(SyncMode::Mutex);
    let mut metrics: Metrics<f64> = Metrics::default();
    let mut recorder = EventRecorder::with_capacity(8);
    let mut sensor = Sensor::new("Force", 5, SensorType::Force, 0);
    let j = sensor.release(5 * MS, 5 * MS, &mut sync, &mut metrics, &mut recorder);
    assert_eq!(j, 0);
    sensor.complete(SendOutcome::Sent, 0, 1.0, 5 * MS, &mut sync, &mut metrics, &mut recorder);
    // The next deadline is at 10 ms.
    assert_eq!(sensor.await_release(7 * MS, &mut sync, &mut metrics), Some(3 * MS));
    assert_eq!(sensor.await_release(10 * MS, &mut sync, &mut metrics), None);
}

#[test]
fn sensor_full_queue_counts_a_drop_and_keeps_the_reading_out() {
    let mut sync = SyncManager::new(SyncMode::Mutex);
    let mut metrics: Metrics<f64> = Metrics::default();
    let mut recorder = EventRecorder::with_capacity(8);
    let mut sensor = Sensor::new("Temperature", 1, SensorType::Temperature, 0);
    let j = sensor.release(3 * MS, 3 * MS, &mut sync, &mut metrics, &mut recorder);
    assert_eq!(j, 2_000);
    let go_on =
        sensor.complete(SendOutcome::Full, 4, 25.0, 3 * MS, &mut sync, &mut metrics, &mut recorder);
    assert!(go_on);
    assert_eq!(sensor.seq(), 2);
    assert!(metrics.temperature.is_empty());
    assert_eq!(metrics.jitter_us.len(), 1);
    assert_eq!(metrics.jitter_us[0], 2_000);
    let d = sync.snapshot_mutex().unwrap();
    assert_eq!(d.tx_drop_count, 1);
    assert!(d.sample_count.is_empty());
    assert_eq!(d.jitter_sum.get(&3), Some(&2_000));
    recorder.pop();
    assert_eq!(
        recorder.pop(),
        Some(Event::SensorSent { seq: 1, ts_ns: 3 * MS, enqueued: false, queue_len: 4 })
    );
}

#[test]
fn sensor_stops_on_a_disconnected_queue() {
    let mut sync = SyncManager::new(SyncMode::Mutex);
    let mut metrics: Metrics<f64> = Metrics::default();
    let mut recorder = EventRecorder::with_capacity(8);
    let mut sensor = Sensor::new("Force", 5, SensorType::Force, 0);
    sensor.release(5 * MS, 5 * MS, &mut sync, &mut metrics, &mut recorder);
    let go_on = sensor.complete(
        SendOutcome::Disconnected,
        0,
        100.0,
        5 * MS,
        &mut sync,
        &mut metrics,
        &mut recorder,
    );
    assert!(!go_on);
    assert_eq!(sensor.seq(), 1);
    assert!(metrics.force.is_empty());
    assert_eq!(metrics.jitter_us.len(), 1);
    assert_eq!(sync.snapshot_mutex().unwrap().tx_drop_count, 1);
    // Only the release was reported.
    assert!(matches!(recorder.pop(), Some(Event::SensorRelease { seq: 1, .. })));
    assert_eq!(recorder.pop(), None);
}

#[test]
fn zero_period_misses_every_release() {
    let mut sync = SyncManager::new(SyncMode::Mutex);
    let mut metrics: Metrics<f64> = Metrics::default();
    let mut recorder = EventRecorder::with_capacity(64);
    let start = 42 * MS;
    let mut sensor = Sensor::new("Force", 0, SensorType::Force, start);
    for k in 0..10u64 {
        let now = start + k * 1_000;
        assert_eq!(sensor.await_release(now, &mut sync, &mut metrics), None);
        sensor.release(now, now, &mut sync, &mut metrics, &mut recorder);
        sensor.complete(SendOutcome::Sent, 0, 1.0, now, &mut sync, &mut metrics, &mut recorder);
        assert_eq!(metrics.miss_sensor, k + 1);
    }
    assert_eq!(metrics.deadline_miss, 10);
    assert_eq!(sync.snapshot_mutex().unwrap().proc_miss_count, 10);
}

#[test]
fn longest_period_is_accepted() {
    let sensor = Sensor::new("Force", MAX_SAMPLING_RATE_MS, SensorType::Force, u64::MAX - 5);
    let mut sync = SyncManager::new(SyncMode::Mutex);
    let mut metrics: Metrics<f64> = Metrics::default();
    // The deadline is held at the top of the clock.
    assert_eq!(sensor.await_release(u64::MAX - 1, &mut sync, &mut metrics), Some(1));
    assert_eq!(sensor.await_release(u64::MAX, &mut sync, &mut metrics), None);
}

#[test]
fn feedback_moves_the_threshold() {
    assert_eq!(threshold_action(&FeedbackKind::<f64>::Ack), ThresholdAction::Decay);
    assert_eq!(threshold_action(&FeedbackKind::ActuatorState(3.5)), ThresholdAction::Keep);
    assert_eq!(
        threshold_action(&FeedbackKind::<f64>::Error("unstable_sensor")),
        ThresholdAction::Relax
    );
    assert_eq!(
        threshold_action(&FeedbackKind::<f64>::Error("deadline_miss")),
        ThresholdAction::Tighten
    );
    assert_eq!(
        threshold_action(&FeedbackKind::<f64>::Error("feedback_deadline_miss")),
        ThresholdAction::Keep
    );
    assert_eq!(
        threshold_action(&FeedbackKind::<f64>::Error("pid_config_failed")),
        ThresholdAction::Keep
    );
    assert_eq!(threshold_action(&FeedbackKind::<f64>::Error("")), ThresholdAction::Keep);
    assert_eq!(UNSTABLE_SENSOR, "unstable_sensor");
    assert_eq!(DEADLINE_MISS, "deadline_miss");
    assert_eq!(FEEDBACK_DEADLINE_MISS, "feedback_deadline_miss");
    assert_eq!(PID_CONFIG_FAILED, "pid_config_failed");
}

#[test]
fn ten_actuator_deadline_misses_tighten_the_threshold() {
    // Ten actuator cycles that overran, each answered with a deadline-miss error.
    let mut sync = SyncManager::new(SyncMode::Mutex);
    let mut metrics: Metrics<f64> = Metrics::default();
    let initial = 3.0f64;
    let mut threshold = initial;
    for _ in 0..10 {
        let controller = Controller::new(0);
        let feedback = controller.finish_cycle(2_500, 0.0, 0, &mut sync, &mut metrics);
        assert!(feedback.second.is_none());
        let mut kinds = vec![feedback.first];
        kinds.extend(feedback.overrun);
        assert_eq!(kinds.len(), 2);
        for kind in kinds {
            let action = threshold_action(&kind);
            assert_eq!(action, ThresholdAction::Tighten);
            threshold = match action {
                ThresholdAction::Relax => threshold * 1.1,
                ThresholdAction::Tighten => threshold * 0.95,
                ThresholdAction::Decay if threshold > 1.5 => threshold * 0.999,
                _ => threshold,
            };
        }
    }
    assert!(threshold < initial);
    assert!(threshold > 0.0);
    assert_eq!(metrics.miss_actuator, 10);
}

#[test]
fn window_slides() {
    let mut p: Processor<f64> = Processor::new(3, 200, 5_000);
    for (i, r) in [1.0, 2.0, 3.0].iter().enumerate() {
        p.push_window(SensorType::Force, *r);
        assert_eq!(p.window(SensorType::Force).len(), i + 1);
    }
    p.push_window(SensorType::Force, 4.0);
    assert_eq!(p.window(SensorType::Force).iter().copied().collect::<Vec<f64>>(), vec![2.0, 3.0, 4.0]);
    p.push_window(SensorType::Force, 5.0);
    assert_eq!(p.window(SensorType::Force).iter().copied().collect::<Vec<f64>>(), vec![3.0, 4.0, 5.0]);
    // The windows of the other sensors are their own.
    assert!(p.window(SensorType::Position).is_empty());
    p.push_window(SensorType::Temperature, 25.0);
    assert_eq!(p.window(SensorType::Temperature).len(), 1);
    assert_eq!(p.window(SensorType::Force).len(), 3);
}

#[test]
fn window_of_one_holds_only_the_latest_reading() {
    let mut p: Processor<f64> = Processor::new(1, 200, 5_000);
    for r in [100.0, 1000.0, -3.0, 99.5] {
        p.push_window(SensorType::Force, r);
        let w = p.window(SensorType::Force);
        assert_eq!(w.len(), 1);
        assert_eq!(w[0], r);
    }
}

#[test]
fn window_of_one_never_reports_an_anomaly() {
    let mut p: Processor<f64> = Processor::new(1, 200, 5_000);
    let mut sync = SyncManager::new(SyncMode::LockFree);
    let mut metrics: Metrics<f64> = Metrics::default();
    let mut recorder = EventRecorder::with_capacity(16);
    for (seq, r) in [100.0, 1000.0, 100.0].iter().enumerate() {
        let data =
            SensorData { timestamp: 0, reading: *r, sensor_type: SensorType::Force, seq: seq as u64 };
        p.push_window(SensorType::Force, *r);
        p.finish_sample(data, *r, "v".to_string(), true, 0, 0, &mut sync, &mut metrics, &mut recorder);
        assert!(matches!(
            recorder.pop(),
            Some(Event::SensorProcessed { is_anomaly: false, .. })
        ));
    }
    assert_eq!(sync.queue_len(), Some(0));
    assert_eq!(metrics.force.len(), 3);
}

#[test]
fn window_of_zero_stays_empty() {
    let mut p: Processor<f64> = Processor::new(0, 200, 5_000);
    p.push_window(SensorType::Position, 1.0);
    p.push_window(SensorType::Position, 2.0);
    assert!(p.window(SensorType::Position).is_empty());
    // With an empty window the filtered value stays out of the metrics.
    let mut sync = SyncManager::new(SyncMode::Mutex);
    let mut metrics: Metrics<f64> = Metrics::default();
    let mut recorder = EventRecorder::with_capacity(4);
    let data = SensorData { timestamp: 0, reading: 2.0, sensor_type: SensorType::Position, seq: 1 };
    p.finish_sample(data, 2.0, "2".to_string(), false, 0, 0, &mut sync, &mut metrics, &mut recorder);
    assert!(metrics.position.is_empty());
}

#[test]
fn arrival_jitter_is_measured_per_sensor() {
    let mut p: Processor<f64> = Processor::new(10, 200, 5_000);
    let mut sync = SyncManager::new(SyncMode::Mutex);
    // First sample of a sensor: no jitter.
    assert_eq!(p.track_arrival(SensorType::Force, 10 * MS, 0, &mut sync), 0);
    assert_eq!(p.track_arrival(SensorType::Position, 11 * MS, 0, &mut sync), 0);
    // 5.3 ms later: 300 us of jitter.
    assert_eq!(p.track_arrival(SensorType::Force, 15 * MS + 300_000, 0, &mut sync), 300);
    // 4 ms after the first position sample: 1000 us.
    assert_eq!(p.track_arrival(SensorType::Position, 15 * MS, 0, &mut sync), 1_000);
    // A timestamp that runs backwards counts as no time passed.
    assert_eq!(p.track_arrival(SensorType::Position, 14 * MS, 0, &mut sync), 5_000);
    let d = sync.snapshot_mutex().unwrap();
    assert_eq!(d.jitter_sum.get(&1), Some(&300));
    assert_eq!(d.jitter_sum.get(&2), Some(&6_000));
    assert_eq!(d.jitter_sum.get(&3), None);
}

#[test]
fn finished_sample_keeps_its_sequence_number() {
    let p: Processor<f64> = {
        let mut p = Processor::new(10, 200, 5_000);
        p.push_window(SensorType::Force, 100.5);
        p
    };
    let mut sync = SyncManager::new(SyncMode::LockFree);
    let mut metrics: Metrics<f64> = Metrics::default();
    let mut recorder = EventRecorder::with_capacity(4);
    let data = SensorData { timestamp: 7, reading: 101.5, sensor_type: SensorType::Force, seq: 4711 };
    let pkt = p.finish_sample(
        data,
        100.5,
        "100.5".to_string(),
        false,
        1_000,
        2_000,
        &mut sync,
        &mut metrics,
        &mut recorder,
    );
    assert_eq!(pkt.seq, 4711);
    assert_eq!(pkt.sensor_type, SensorType::Force);
    assert_eq!(pkt.filtered, 100.5);
    assert_eq!(pkt.raw, 101.5);
    assert_eq!(pkt.timestamp, 1_000);
    assert_eq!(metrics.force.len(), 1);
    assert_eq!(metrics.force[0], 100.5);
    assert_eq!(sync.queue_len(), Some(0));
    assert_eq!(
        recorder.pop(),
        Some(Event::SensorProcessed {
            seq: 4711,
            ts_ns: 2_000,
            filtered_value: "100.5".to_string(),
            is_anomaly: false
        })
    );
}

#[test]
fn anomaly_is_logged_under_the_sensor_code() {
    let mut p: Processor<f64> = Processor::new(10, 200, 5_000);
    let mut sync = SyncManager::new(SyncMode::LockFree);
    let mut metrics: Metrics<f64> = Metrics::default();
    let mut recorder = EventRecorder::with_capacity(128);
    let names = sensor_name_map();
    // An anomaly verdict on the very first reading is not believed.
    let first = SensorData { timestamp: 0, reading: 100.0, sensor_type: SensorType::Force, seq: 0 };
    p.push_window(SensorType::Force, 100.0);
    p.finish_sample(first, 100.0, "x".to_string(), true, 0, 0, &mut sync, &mut metrics, &mut recorder);
    assert_eq!(sync.queue_len(), Some(0));
    assert_eq!(
        recorder.pop(),
        Some(Event::SensorProcessed {
            seq: 0,
            ts_ns: 0,
            filtered_value: "x".to_string(),
            is_anomaly: false
        })
    );
    // Fifty ordinary readings, then one far off.
    for seq in 1..=51u64 {
        let reading = if seq == 51 { 1000.0 } else { 100.0 };
        let data = SensorData { timestamp: seq, reading, sensor_type: SensorType::Force, seq };
        p.push_window(SensorType::Force, reading);
        let anomaly = seq == 51;
        let pkt = p.finish_sample(
            data,
            reading,
            "x".to_string(),
            anomaly,
            seq,
            seq,
            &mut sync,
            &mut metrics,
            &mut recorder,
        );
        assert_eq!(pkt.seq, seq);
    }
    let rows = drain_rows(&mut sync, None, &names, 0, 0);
    let custom: Vec<&str> =
        rows.iter().map(|r| r.event.as_str()).filter(|e| e.starts_with("custom:")).collect();
    assert_eq!(custom, vec!["custom:101"]);
    // The one event that reports an anomaly is the one of sample 51.
    let mut flagged = Vec::new();
    while let Some(e) = recorder.pop() {
        if let Event::SensorProcessed { seq, is_anomaly: true, .. } = e {
            flagged.push(seq);
        }
    }
    assert_eq!(flagged, vec![51]);
    // The other sensors have their own codes.
    let data = SensorData { timestamp: 0, reading: 0.0, sensor_type: SensorType::Temperature, seq: 1 };
    p.push_window(SensorType::Temperature, 25.0);
    p.push_window(SensorType::Temperature, 0.0);
    p.finish_sample(data, 0.0, "0".to_string(), true, 0, 0, &mut sync, &mut metrics, &mut recorder);
    assert_eq!(sync.pop_log().unwrap().kind, LogEventKind::Custom { code: 103 });
}

#[test]
fn overruns_are_counted_each_and_flagged_after_three_in_a_row() {
    assert_eq!(MISS_CONFIRM_THRESHOLD, 3);
    let mut p: Processor<f64> = Processor::new(10, 200, 5_000);
    let mut sync = SyncManager::new(SyncMode::Mutex);
    let mut metrics: Metrics<f64> = Metrics::default();
    // Exactly at the deadline is no overrun.
    assert!(!p.update_metrics(200, 0, &mut sync, &mut metrics));
    assert_eq!(metrics.miss_processor, 0);
    assert!(!p.update_metrics(300, 0, &mut sync, &mut metrics));
    assert!(!p.update_metrics(201, 0, &mut sync, &mut metrics));
    assert!(p.update_metrics(300, 0, &mut sync, &mut metrics));
    assert!(p.update_metrics(300, 0, &mut sync, &mut metrics));
    assert_eq!(metrics.miss_processor, 4);
    // A cycle in time starts the count over.
    assert!(!p.update_metrics(110, 0, &mut sync, &mut metrics));
    assert!(!p.update_metrics(300, 0, &mut sync, &mut metrics));
    assert!(!p.update_metrics(300, 0, &mut sync, &mut metrics));
    assert!(p.update_metrics(300, 0, &mut sync, &mut metrics));
    assert_eq!(p.consecutive_overruns(), 3);
    assert_eq!(metrics.miss_processor, 7);
    assert_eq!(metrics.deadline_miss, 7);
    assert_eq!(metrics.total_cycles, 9);
    assert_eq!(metrics.latency_us.len(), 9);
    assert_eq!(metrics.latency_us[0], 200);
    assert_eq!(sync.snapshot_mutex().unwrap().proc_miss_count, 7);
}

#[test]
fn closing_a_cycle_counts_the_sample() {
    let mut p: Processor<f64> = Processor::new(10, 200, 5_000);
    let mut sync = SyncManager::new(SyncMode::Mutex);
    let mut metrics: Metrics<f64> = Metrics::default();
    assert!(!p.close_cycle(SensorType::Temperature, 150, 0, &mut sync, &mut metrics));
    assert!(!p.close_cycle(SensorType::Temperature, 250, 0, &mut sync, &mut metrics));
    let d = sync.snapshot_mutex().unwrap();
    assert_eq!(d.sample_count.get(&3), Some(&2));
    assert_eq!(d.proc_miss_count, 1);
    assert_eq!(metrics.total_cycles, 2);
    assert_eq!(metrics.miss_processor, 1);
}

#[test]
fn with_no_busy_time_no_processor_miss_is_counted() {
    let mut p: Processor<f64> = Processor::new(10, 200, 5_000);
    let mut sync = SyncManager::new(SyncMode::Mutex);
    let mut metrics: Metrics<f64> = Metrics::default();
    for elapsed in [0u64, 1, 3, 40, 199, 200] {
        assert!(!p.update_metrics(elapsed, 0, &mut sync, &mut metrics));
    }
    assert_eq!(metrics.miss_processor, 0);
    assert_eq!(metrics.deadline_miss, 0);
    assert_eq!(sync.snapshot_mutex().unwrap().proc_miss_count, 0);
}

#[test]
fn feedback_is_overridden_after_the_deadline() {
    assert_eq!(FEEDBACK_CAPACITY, 64);
    assert_eq!(FEEDBACK_DEADLINE_US, 500);
    let f = FeedbackLoop::new();
    assert_eq!(f.deadline(), 500);
    let mut recorder = EventRecorder::with_capacity(8);
    let m: Feedback<f64> = f.emit("Gripper", FeedbackKind::Ack, 500, 9_000, &mut recorder);
    assert_eq!(m.actuator, "Gripper");
    assert!(matches!(m.kind, FeedbackKind::Ack));
    assert_eq!(m.timestamp, 9_000);
    assert_eq!(m.seq, 0);
    let m: Feedback<f64> = f.emit("Motor", FeedbackKind::ActuatorState(12.5), 10, 9_100, &mut recorder);
    assert!(matches!(m.kind, FeedbackKind::ActuatorState(s) if s == 12.5));
    let m: Feedback<f64> = f.emit("Motor", FeedbackKind::Ack, 501, 9_200, &mut recorder);
    assert!(kind_is_error(&m.kind, "feedback_deadline_miss"));
    assert_eq!(m.actuator, "Motor");
    assert_eq!(m.timestamp, 9_200);
    let m: Feedback<f64> =
        f.emit("Controller", FeedbackKind::Error(UNSTABLE_SENSOR), 100, 9_300, &mut recorder);
    assert!(kind_is_error(&m.kind, "unstable_sensor"));
    let m: Feedback<f64> =
        f.emit("Controller", FeedbackKind::Error(UNSTABLE_SENSOR), 10_000, 9_400, &mut recorder);
    assert!(kind_is_error(&m.kind, "feedback_deadline_miss"));
    for ts in [9_000u64, 9_100, 9_200, 9_300, 9_400] {
        assert_eq!(recorder.pop(), Some(Event::FeedbackSent { seq: 0, ts_ns: ts }));
    }
    assert_eq!(recorder.pop(), None);
    let slow = FeedbackLoop::with_deadline(2_000);
    let m: Feedback<f64> = slow.emit("Motor", FeedbackKind::Ack, 1_999, 0, &mut recorder);
    assert!(matches!(m.kind, FeedbackKind::Ack));
}

#[test]
fn transmitter_drops_at_the_threshold() {
    assert_eq!(DEFAULT_MAX_QUEUED, 1024);
    let t = Transmitter::new(1024);
    assert_eq!(t.threshold(), 1024);
    let mut sync = SyncManager::new(SyncMode::Mutex);
    assert!(t.transmit(0, 0, &mut sync));
    assert!(t.transmit(1023, 0, &mut sync));
    assert_eq!(sync.snapshot_mutex().unwrap().tx_drop_count, 0);
    assert!(!t.transmit(1024, 0, &mut sync));
    assert!(!t.transmit(5000, 0, &mut sync));
    assert_eq!(sync.snapshot_mutex().unwrap().tx_drop_count, 2);
    t.after_send(SendOutcome::Sent, 0, &mut sync);
    assert_eq!(sync.snapshot_mutex().unwrap().tx_drop_count, 2);
    t.after_send(SendOutcome::Full, 0, &mut sync);
    t.after_send(SendOutcome::Disconnected, 0, &mut sync);
    assert_eq!(sync.snapshot_mutex().unwrap().tx_drop_count, 4);
    // A threshold of zero drops everything.
    let closed = Transmitter::new(0);
    assert!(!closed.transmit(0, 0, &mut sync));
}

#[test]
fn backpressure_shows_as_tx_drops() {
    // A queue of four that nothing drains: every later sample is dropped.
    let mut sync = SyncManager::new(SyncMode::Mutex);
    let mut metrics: Metrics<f64> = Metrics::default();
    let mut recorder = EventRecorder::with_capacity(1024);
    let mut sensor = Sensor::new("Force", 1, SensorType::Force, 0);
    let mut queued = 0u32;
    for k in 1..=100u64 {
        let tick = k * MS;
        sensor.release(tick, tick, &mut sync, &mut metrics, &mut recorder);
        let outcome = if queued < 4 {
            queued += 1;
            SendOutcome::Sent
        } else {
            SendOutcome::Full
        };
        assert!(sensor.complete(outcome, queued, 100.0, tick, &mut sync, &mut metrics, &mut recorder));
    }
    let d = sync.snapshot_mutex().unwrap();
    assert_eq!(d.tx_drop_count, 96);
    assert_eq!(d.sample_count.get(&1), Some(&4));
    assert_eq!(metrics.force.len(), 4);
}

#[test]
fn controller_time_step_is_clamped() {
    assert_eq!(MIN_DT_NS, 1_000);
    assert_eq!(MAX_DT_NS, 50_000_000);
    let mut c = Controller::new(1_000_000);
    assert_eq!(c.begin(1_000_000), 1_000);
    assert_eq!(c.begin(1_000_500), 1_000);
    assert_eq!(c.begin(1_002_500), 2_000);
    assert_eq!(c.begin(6_002_500), 5_000_000);
    assert_eq!(c.begin(56_002_500), 50_000_000);
    assert_eq!(c.begin(156_002_500), 50_000_000);
    // A clock that runs backwards gives the shortest step.
    assert_eq!(c.begin(100), 1_000);
    assert_eq!(c.begin(1_100), 1_000);
    assert_eq!(c.begin(3_100), 2_000);
}

#[test]
fn controller_setpoints_and_retargeting() {
    assert_eq!(setpoint(SensorType::Force), 100);
    assert_eq!(setpoint(SensorType::Position), 0);
    assert_eq!(setpoint(SensorType::Temperature), 25);
    let mut c = Controller::new(0);
    // A new controller is configured for zero, the position setpoint.
    assert_eq!(c.retarget(SensorType::Position), None);
    assert_eq!(c.retarget(SensorType::Force), Some(100));
    assert_eq!(c.retarget(SensorType::Force), None);
    assert_eq!(c.retarget(SensorType::Temperature), Some(25));
    assert_eq!(c.retarget(SensorType::Position), Some(0));
}

#[test]
fn controller_reports_instability_and_config_failure() {
    assert_eq!(INSTABILITY_CODE, 900);
    let c = Controller::new(0);
    let mut sync = SyncManager::new(SyncMode::LockFree);
    let k: FeedbackKind<f64> = c.report_instability(5, &mut sync);
    assert!(kind_is_error(&k, "unstable_sensor"));
    let raw = sync.pop_log().unwrap();
    assert_eq!(raw.kind, LogEventKind::Custom { code: 900 });
    assert_eq!(raw.ts_ns, 5);
    let k: FeedbackKind<f64> = c.report_config_failure(6, &mut sync);
    assert!(kind_is_error(&k, "pid_config_failed"));
    assert_eq!(sync.pop_log().unwrap().kind, LogEventKind::ProcMiss);
    assert_eq!(sync.pop_log(), None);
}

#[test]
fn controller_completion() {
    let c = Controller::new(0);
    let mut metrics: Metrics<f64> = Metrics::default();
    let mut recorder = EventRecorder::with_capacity(8);
    c.complete(51, "50".to_string(), 50.0, ActuatorType::Gripper, 12, 777, &mut metrics, &mut recorder);
    assert_eq!(metrics.gripper.len(), 1);
    assert_eq!(metrics.gripper[0], 50.0);
    assert!(metrics.motor.is_empty());
    assert!(metrics.stabiliser.is_empty());
    assert_eq!(
        recorder.pop(),
        Some(Event::ControllerComplete {
            seq: 51,
            ts_ns: 777,
            control_output: "50".to_string(),
            exec_us: 12
        })
    );
    c.complete(52, "-50".to_string(), 0.0, ActuatorType::Stabiliser, 9, 888, &mut metrics, &mut recorder);
    assert_eq!(metrics.stabiliser.len(), 1);
    assert_eq!(metrics.gripper.len(), 1);
    assert_eq!(metrics.miss_actuator, 0);
    assert_eq!(recorder.pop().unwrap().seq(), 52);
}

#[test]
fn routing_is_fixed() {
    assert_eq!(CHANNEL_CAPACITY, 8);
    let m = MultiActuator::new();
    assert_eq!(m.route(SensorType::Force), ActuatorType::Gripper);
    assert_eq!(m.route(SensorType::Position), ActuatorType::Motor);
    assert_eq!(m.route(SensorType::Temperature), ActuatorType::Stabiliser);
    assert_eq!(actuator_name(ActuatorType::Gripper), "Gripper");
    assert_eq!(actuator_name(ActuatorType::Motor), "Motor");
    assert_eq!(actuator_name(ActuatorType::Stabiliser), "Stabiliser");
    let mut sync = SyncManager::new(SyncMode::Mutex);
    m.dispatch(SendOutcome::Sent, 0, &mut sync);
    assert_eq!(sync.snapshot_mutex().unwrap().tx_drop_count, 0);
    m.dispatch(SendOutcome::Full, 0, &mut sync);
    m.dispatch(SendOutcome::Disconnected, 0, &mut sync);
    assert_eq!(sync.snapshot_mutex().unwrap().tx_drop_count, 2);
}

#[test]
fn actuator_cycle_feedback_and_misses() {
    assert_eq!(ACTUATOR_DEADLINE_US, 2_000);
    assert_eq!(ACK_LIMIT_US, 500);
    let c = Controller::new(0);
    let mut sync = SyncManager::new(SyncMode::Mutex);
    let mut metrics: Metrics<f64> = Metrics::default();
    // In time: acknowledged, with the state.
    let f = c.finish_cycle(500, 7.5, 0, &mut sync, &mut metrics);
    assert!(f.overrun.is_none());
    assert!(matches!(f.first, FeedbackKind::Ack));
    assert!(matches!(f.second, Some(FeedbackKind::ActuatorState(s)) if s == 7.5));
    // Too slow for an acknowledgement, but within the deadline.
    let f = c.finish_cycle(501, 7.5, 0, &mut sync, &mut metrics);
    assert!(f.overrun.is_none());
    assert!(kind_is_error(&f.first, "deadline_miss"));
    assert!(f.second.is_none());
    let f = c.finish_cycle(2_000, 7.5, 0, &mut sync, &mut metrics);
    assert!(f.overrun.is_none());
    assert!(kind_is_error(&f.first, "deadline_miss"));
    assert_eq!(metrics.miss_actuator, 0);
    assert_eq!(sync.snapshot_mutex().unwrap().proc_miss_count, 0);
    // Past the deadline: charged to the actuator, and reported twice.
    let f = c.finish_cycle(2_001, 7.5, 0, &mut sync, &mut metrics);
    assert!(kind_is_error(&f.overrun.unwrap(), "deadline_miss"));
    assert!(kind_is_error(&f.first, "deadline_miss"));
    assert!(f.second.is_none());
    assert_eq!(metrics.miss_actuator, 1);
    assert_eq!(metrics.deadline_miss, 1);
    assert_eq!(sync.snapshot_mutex().unwrap().proc_miss_count, 1);
    // Another deadline.
    let slow = Controller::with_deadline(0, 100);
    let f = slow.finish_cycle(101, 0.0, 0, &mut sync, &mut metrics);
    assert!(f.overrun.is_some());
    assert!(matches!(f.first, FeedbackKind::Ack));
    assert_eq!(metrics.miss_actuator, 2);
}

#[test]
fn dispatcher_reports_receipt_and_latency() {
    let r = Receiving::new(0);
    let mut sync = SyncManager::new(SyncMode::LockFree);
    let mut metrics: Metrics<f64> = Metrics::default();
    let mut recorder = EventRecorder::with_capacity(8);
    let pkt = ProcessedPacket {
        sensor_type: SensorType::Force,
        filtered: 100.0,
        raw: 100.2,
        timestamp: 2 * MS,
        seq: 33,
    };
    let latency = r.receive(&pkt, 2 * MS + 250_999, &mut sync, &mut metrics, &mut recorder);
    assert_eq!(latency, 250);
    assert_eq!(metrics.latency_us.len(), 1);
    assert_eq!(metrics.latency_us[0], 250);
    assert_eq!(recorder.pop(), Some(Event::ActuatorReceive { seq: 33, ts_ns: 2 * MS + 250_999 }));
    let raw = sync.pop_log().unwrap();
    assert_eq!(raw.kind, LogEventKind::RxLatency { latency_us: 250 });
    assert_eq!(raw.value, 250);
    assert_eq!(raw.ts_ns, 2 * MS + 250_999);
    r.controller.record_rx_latency(9, 10, &mut sync);
    assert_eq!(sync.pop_log().unwrap().kind, LogEventKind::RxLatency { latency_us: 9 });
    // A packet stamped in the future has no latency.
    assert_eq!(r.receive(&pkt, MS, &mut sync, &mut metrics, &mut recorder), 0);
}

#[test]
fn sequence_number_survives_the_whole_pipeline() {
    let mut sync = SyncManager::new(SyncMode::LockFree);
    let mut metrics: Metrics<f64> = Metrics::default();
    let mut recorder = EventRecorder::with_capacity(64);
    let mut sensor = Sensor::new("Force", 5, SensorType::Force, 0);
    let mut processor: Processor<f64> = Processor::new(10, 200, 5_000);
    let receiving = Receiving::new(0);
    let mut controller = Controller::new(0);
    let router = MultiActuator::new();
    for k in 1..=3u64 {
        let tick = k * 5 * MS;
        sensor.release(tick, tick, &mut sync, &mut metrics, &mut recorder);
        let data = sensor.sample(100.0 + k as f64, tick);
        sensor.complete(SendOutcome::Sent, 1, data.reading, tick, &mut sync, &mut metrics, &mut recorder);
        processor.track_arrival(data.sensor_type, data.timestamp, tick, &mut sync);
        processor.push_window(data.sensor_type, data.reading);
        let pkt = processor.finish_sample(
            data,
            data.reading,
            "f".to_string(),
            false,
            tick + 1,
            tick + 2,
            &mut sync,
            &mut metrics,
            &mut recorder,
        );
        processor.close_cycle(pkt.sensor_type, 120, tick + 3, &mut sync, &mut metrics);
        receiving.receive(&pkt, tick + 4, &mut sync, &mut metrics, &mut recorder);
        controller.begin(tick + 5);
        controller.retarget(pkt.sensor_type);
        controller.complete(
            pkt.seq,
            "c".to_string(),
            1.0,
            router.route(pkt.sensor_type),
            3,
            tick + 6,
            &mut metrics,
            &mut recorder,
        );
        // Five events per sample, all under the sample's number.
        let mut names = Vec::new();
        for _ in 0..5 {
            let e = recorder.pop().unwrap();
            assert_eq!(e.seq(), k);
            names.push(match e {
                Event::SensorRelease { .. } => "release",
                Event::SensorSent { .. } => "sent",
                Event::SensorProcessed { .. } => "processed",
                Event::ActuatorReceive { .. } => "receive",
                Event::ControllerComplete { .. } => "complete",
                _ => "other",
            });
        }
        assert_eq!(names, vec!["release", "sent", "processed", "receive", "complete"]);
        assert!(recorder.is_empty());
    }
    assert_eq!(metrics.total_cycles, 3);
    assert_eq!(metrics.gripper.len(), 3);
}

#[test]
fn standard_configuration() {
    let c = PipelineConfig::default();
    assert_eq!(c.sampling_period_ms, 5);
    assert_eq!(c.window_size, 10);
    assert_eq!(c.processor_deadline_us, 200);
    assert_eq!(c.actuator_deadline_us, 2_000);
    assert_eq!(c.feedback_deadline_us, 500);
    assert_eq!(c.sensor_queue_capacity, 2048);
    assert_eq!(c.processed_queue_capacity, 1024);
    assert_eq!(c.transmitter_threshold, 1024);
    assert_eq!(c.actuator_queue_capacity, 8);
    assert_eq!(c.feedback_capacity, 64);
    assert_eq!(c.sync_mode, SyncMode::LockFree);
    assert_eq!(c.log_capacity, 8192);
    assert_eq!(c.event_capacity, 16_384);
    assert_eq!(c.shared_core, 0);
    assert_eq!(c.duration_secs, 30);
}

#[test]
fn shutdown_closes_upstream_first_and_telemetry_last() {
    let mut steps = vec![first_shutdown_step()];
    while let Some(next) = next_shutdown_step(*steps.last().unwrap()) {
        steps.push(next);
    }
    assert_eq!(
        steps,
        vec![
            ShutdownStep::ClearRunningFlag,
            ShutdownStep::DropSensorSenders,
            ShutdownStep::DropTransmitter,
            ShutdownStep::JoinSensors,
            ShutdownStep::JoinProcessor,
            ShutdownStep::JoinDispatcher,
            ShutdownStep::StopLogConsumer,
            ShutdownStep::StopEventExporter,
        ]
    );
}
