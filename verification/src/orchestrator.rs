//! The knobs of a run and the order of its shutdown.
//!
//! The orchestrator proper spawns the workers and owns the queues between
//! them. What it decides is written down here: the capacities and deadlines it
//! wires the stages with, and the steps it takes, in order, to bring a run to
//! an end.

use vstd::prelude::*;
use crate::events::EVENT_QUEUE_CAPACITY;
use crate::feedback::{FEEDBACK_CAPACITY, FEEDBACK_DEADLINE_US};
use crate::controller::ACTUATOR_DEADLINE_US;
use crate::multi_actuator::CHANNEL_CAPACITY;
use crate::processor::{DEFAULT_DEADLINE_US, DEFAULT_WINDOW_SIZE};
use crate::sync_manager::{SyncMode, LOG_CAPACITY};
use crate::transmitter::DEFAULT_MAX_QUEUED;

verus! {

/// Samples the queue from the sensors to the processor takes.
pub const SENSOR_QUEUE_CAPACITY: usize = 2048;

/// Packets the queue from the processor to the dispatcher takes.
pub const PROCESSED_QUEUE_CAPACITY: usize = 1024;

/// The sampling period of every sensor, in milliseconds.
pub const DEFAULT_SAMPLING_PERIOD_MS: u64 = 5;

/// The length of a run, in seconds.
pub const DEFAULT_SIMULATION_DURATION_SECS: u64 = 30;

/// The core the sensors and the processor are pinned to.
pub const DEFAULT_SHARED_CORE: usize = 0;

/// The knobs of a run.
#[derive(Debug, Clone, Copy, PartialEq, Eq, Structural)]
pub struct PipelineConfig {
    pub sampling_period_ms: u64,
    pub window_size: usize,
    pub processor_deadline_us: u64,
    pub actuator_deadline_us: u64,
    pub feedback_deadline_us: u64,
    pub sensor_queue_capacity: usize,
    pub processed_queue_capacity: usize,
    pub transmitter_threshold: usize,
    pub actuator_queue_capacity: usize,
    pub feedback_capacity: usize,
    pub sync_mode: SyncMode,
    pub log_capacity: usize,
    pub event_capacity: usize,
    pub shared_core: usize,
    pub duration_secs: u64,
}

impl PipelineConfig {
    /// The knobs of a standard run.
    pub open spec fn standard() -> PipelineConfig {
        PipelineConfig {
            sampling_period_ms: DEFAULT_SAMPLING_PERIOD_MS,
            window_size: DEFAULT_WINDOW_SIZE,
            processor_deadline_us: DEFAULT_DEADLINE_US,
            actuator_deadline_us: ACTUATOR_DEADLINE_US,
            feedback_deadline_us: FEEDBACK_DEADLINE_US,
            sensor_queue_capacity: SENSOR_QUEUE_CAPACITY,
            processed_queue_capacity: PROCESSED_QUEUE_CAPACITY,
            transmitter_threshold: DEFAULT_MAX_QUEUED,
            actuator_queue_capacity: CHANNEL_CAPACITY,
            feedback_capacity: FEEDBACK_CAPACITY,
            sync_mode: SyncMode::LockFree,
            log_capacity: LOG_CAPACITY,
            event_capacity: EVENT_QUEUE_CAPACITY,
            shared_core: DEFAULT_SHARED_CORE,
            duration_secs: DEFAULT_SIMULATION_DURATION_SECS,
        }
    }
}

impl Default for PipelineConfig {
    fn default() -> (c: PipelineConfig)
        ensures
            c == PipelineConfig::standard(),
    {
        PipelineConfig {
            sampling_period_ms: DEFAULT_SAMPLING_PERIOD_MS,
            window_size: DEFAULT_WINDOW_SIZE,
            processor_deadline_us: DEFAULT_DEADLINE_US,
            actuator_deadline_us: ACTUATOR_DEADLINE_US,
            feedback_deadline_us: FEEDBACK_DEADLINE_US,
            sensor_queue_capacity: SENSOR_QUEUE_CAPACITY,
            processed_queue_capacity: PROCESSED_QUEUE_CAPACITY,
            transmitter_threshold: DEFAULT_MAX_QUEUED,
            actuator_queue_capacity: CHANNEL_CAPACITY,
            feedback_capacity: FEEDBACK_CAPACITY,
            sync_mode: SyncMode::LockFree,
            log_capacity: LOG_CAPACITY,
            event_capacity: EVENT_QUEUE_CAPACITY,
            shared_core: DEFAULT_SHARED_CORE,
            duration_secs: DEFAULT_SIMULATION_DURATION_SECS,
        }
    }
}

/// One step of bringing a run to an end.
#[derive(Debug, Clone, Copy, PartialEq, Eq, Structural)]
pub enum ShutdownStep {
    /// Clear the flag the sensors and the load threads watch.
    ClearRunningFlag,
    /// Drop the senders into the queue from the sensors to the processor.
    DropSensorSenders,
    /// Drop the transmitter, the sender into the queue to the dispatcher.
    DropTransmitter,
    /// Join the sensor tasks.
    JoinSensors,
    /// Join the processor.
    JoinProcessor,
    /// Join the dispatcher, and with it the actuator workers.
    JoinDispatcher,
    /// Stop and join the drain worker of the telemetry sink.
    StopLogConsumer,
    /// Let the event exporter run dry and join it.
    StopEventExporter,
}

/// The position of a step in the shutdown, counted from zero.
pub open spec fn shutdown_rank(step: ShutdownStep) -> nat {
    match step {
        ShutdownStep::ClearRunningFlag => 0,
        ShutdownStep::DropSensorSenders => 1,
        ShutdownStep::DropTransmitter => 2,
        ShutdownStep::JoinSensors => 3,
        ShutdownStep::JoinProcessor => 4,
        ShutdownStep::JoinDispatcher => 5,
        ShutdownStep::StopLogConsumer => 6,
        ShutdownStep::StopEventExporter => 7,
    }
}

/// The step that opens a shutdown.
pub fn first_shutdown_step() -> (step: ShutdownStep)
    ensures
        shutdown_rank(step) == 0,
{
    ShutdownStep::ClearRunningFlag
}

/// The step that follows `step`, or `None` after the last one.
///
/// The flag is cleared first. The queues are then closed from upstream to
/// downstream, the sensors' senders before the transmitter, so that every
/// worker sees its input end after it has drained what was queued. Workers
/// are joined in the same direction, and the two telemetry workers stop last,
/// when nothing can produce a record any more.
pub fn next_shutdown_step(step: ShutdownStep) -> (next: Option<ShutdownStep>)
    ensures
        next is None <==> step == ShutdownStep::StopEventExporter,
        next matches Some(n) ==> shutdown_rank(n) == shutdown_rank(step) + 1,
{
    match step {
        ShutdownStep::ClearRunningFlag => Some(ShutdownStep::DropSensorSenders),
        ShutdownStep::DropSensorSenders => Some(ShutdownStep::DropTransmitter),
        ShutdownStep::DropTransmitter => Some(ShutdownStep::JoinSensors),
        ShutdownStep::JoinSensors => Some(ShutdownStep::JoinProcessor),
        ShutdownStep::JoinProcessor => Some(ShutdownStep::JoinDispatcher),
        ShutdownStep::JoinDispatcher => Some(ShutdownStep::StopLogConsumer),
        ShutdownStep::StopLogConsumer => Some(ShutdownStep::StopEventExporter),
        ShutdownStep::StopEventExporter => None,
    }
}

} // verus!
