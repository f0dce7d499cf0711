//! Verified core of a soft real-time pipeline from sensors over a processor to
//! actuators.
//!
//! The crate holds the rules of the pipeline: periodic release accounting,
//! bounded telemetry, deadline bookkeeping, routing and feedback selection.
//! Clocks, threads, channels and real-valued arithmetic live with the caller,
//! who hands over plain integers (nanoseconds, microseconds, sequence numbers).

pub mod sensor;
pub mod text;
pub mod log_queue;
pub mod counter_map;
pub mod sync_manager;
pub mod log_consumer;
pub mod sync_trace;
pub mod metrics;
pub mod event_queue;
pub mod events;
pub mod feedback;
pub mod processor;
pub mod transmitter;
pub mod controller;
pub mod multi_actuator;
pub mod receiver;
pub mod orchestrator;
