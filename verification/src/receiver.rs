//! The dispatcher's side of the queue from the processor.
//!
//! For every processed sample the dispatcher reports the receipt, measures how
//! long the sample took from the start of its processor cycle and logs that
//! latency. Its own controller then runs on the sample before it is routed.

use vstd::prelude::*;
use crate::controller::{Controller, ControllerState};
use crate::events::{Event, EventRecorder, EventText};
use crate::metrics::Metrics;
use crate::processor::{packet_of, processed_event, ProcessedPacket};
use crate::sensor::{elapsed_micros, micros_between, SensorData, SensorState};
use crate::sync_manager::SyncManager;

verus! {

/// The receiving stage: the dispatcher with its own controller.
#[derive(Debug, Clone, Copy)]
pub struct Receiving {
    /// The controller that runs in the dispatcher before a sample is routed.
    pub controller: Controller,
}

/// The event that reports the receipt of a packet with sequence number `seq`.
pub open spec fn receive_event(seq: u64, now_ns: u64) -> EventText {
    EventText::ActuatorReceive { seq, ts_ns: now_ns }
}

impl Receiving {
    /// A receiving stage made at `now_ns`.
    pub fn new(now_ns: u64) -> (r: Receiving)
        ensures
            r.controller@ == ControllerState::fresh(now_ns),
    {
        Receiving { controller: Controller::new(now_ns) }
    }

    /// Takes in a packet at `now_ns`: reports the receipt under the packet's
    /// sequence number, puts the packet's latency into the metrics and logs it
    /// in the sink. The answer is that latency in microseconds.
    pub fn receive<R>(
        &self,
        packet: &ProcessedPacket<R>,
        now_ns: u64,
        sync: &mut SyncManager,
        metrics: &mut Metrics<R>,
        recorder: &mut EventRecorder,
    ) -> (latency_us: u64)
        ensures
            latency_us == elapsed_micros(packet.timestamp, now_ns),
            final(recorder)@ == old(recorder)@.after_record(receive_event(packet.seq, now_ns)),
            final(metrics)@ == old(metrics)@.after_latency(latency_us),
            final(sync)@ == old(sync)@.after_rx_latency(latency_us, now_ns),
    {
        recorder.record(Event::ActuatorReceive { seq: packet.seq, ts_ns: now_ns });
        let latency_us = micros_between(packet.timestamp, now_ns);
        metrics.push_latency(latency_us);
        self.controller.record_rx_latency(latency_us, now_ns, sync);
        latency_us
    }
}

/// A sample keeps the sequence number its sensor gave it all the way through
/// the pipeline: the release event, the sample, the processing event, the
/// packet, the receipt event at the actuator stage and the controller's
/// completion event, reported under the packet's number, all carry it.
pub proof fn lemma_seq_preserved_end_to_end<R>(
    sensor: SensorState,
    reading: R,
    tick_ns: u64,
    filtered: R,
    filtered_text: Seq<char>,
    is_anomaly: bool,
    control_text: Seq<char>,
    exec_us: u64,
    t_release: u64,
    t_cycle: u64,
    t_processed: u64,
    t_receive: u64,
    t_complete: u64,
)
    ensures
        ({
            let data = SensorData {
                timestamp: tick_ns,
                reading,
                sensor_type: sensor.sensor_type,
                seq: sensor.seq,
            };
            let packet = packet_of(data, filtered, t_cycle);
            let origin = sensor.release_event(t_release).seq();
            &&& origin == sensor.seq
            &&& data.seq == origin
            &&& processed_event(data.seq, t_processed, filtered_text, is_anomaly).seq() == origin
            &&& packet.seq == origin
            &&& receive_event(packet.seq, t_receive).seq() == origin
            &&& crate::controller::complete_event(packet.seq, t_complete, control_text, exec_us).seq()
                == origin
        }),
{
}

} // verus!
