//! The bookkeeping of one actuator controller.
//!
//! The control law itself is a PID controller on real numbers and runs with
//! the caller. This module clamps the time step it is given, picks the
//! setpoint for a sample, reports what the controller did, charges an overrun
//! of the cycle deadline to the actuator and chooses the feedback to emit.

use vstd::prelude::*;
use crate::events::{Event, EventRecorder, EventText};
use crate::feedback::{FeedbackKind, DEADLINE_MISS, PID_CONFIG_FAILED, UNSTABLE_SENSOR};
use crate::metrics::{ActuatorType, DeadlineComponent, Metrics};
use crate::sensor::SensorType;
use crate::sync_manager::SyncManager;

verus! {

/// The time one actuator cycle may take, in microseconds.
pub const ACTUATOR_DEADLINE_US: u64 = 2_000;

/// A cycle that took no longer than this, in microseconds, is acknowledged.
pub const ACK_LIMIT_US: u64 = 500;

/// The code under which an unstable sensor is logged.
pub const INSTABILITY_CODE: u16 = 900;

/// The shortest time step handed to the control law, in nanoseconds.
pub const MIN_DT_NS: u64 = 1_000;

/// The longest time step handed to the control law, in nanoseconds.
pub const MAX_DT_NS: u64 = 50_000_000;

/// The setpoint the controller steers to for a sample of sensor `kind`.
pub open spec fn setpoint_of(kind: SensorType) -> u32 {
    match kind {
        SensorType::Force => 100,
        SensorType::Position => 0,
        SensorType::Temperature => 25,
    }
}

/// The time step from `last_update` to `now_ns`, held within `MIN_DT_NS` and
/// `MAX_DT_NS`.
pub open spec fn clamped_dt(last_update: u64, now_ns: u64) -> u64 {
    if now_ns < last_update || now_ns - last_update < MIN_DT_NS {
        MIN_DT_NS
    } else if now_ns - last_update > MAX_DT_NS {
        MAX_DT_NS
    } else {
        (now_ns - last_update) as u64
    }
}

/// The setpoint the controller steers to for a sample of sensor `kind`.
pub fn setpoint(kind: SensorType) -> (target: u32)
    ensures
        target == setpoint_of(kind),
{
    match kind {
        SensorType::Force => 100,
        SensorType::Position => 0,
        SensorType::Temperature => 25,
    }
}

/// The bookkeeping of one controller.
#[derive(Debug, Clone, Copy)]
pub struct Controller {
    last_update: u64,
    current_target: u32,
    deadline_us: u64,
}

/// The mathematical state of a controller.
pub struct ControllerState {
    /// When the control law last ran, in nanoseconds.
    pub last_update: u64,
    /// The setpoint the control law is configured for.
    pub current_target: u32,
    /// The time one cycle may take, in microseconds.
    pub deadline_us: u64,
}

impl ControllerState {
    /// A controller made at `now_ns`: configured for the setpoint zero, with
    /// the cycle deadline `ACTUATOR_DEADLINE_US`.
    pub open spec fn fresh(now_ns: u64) -> ControllerState {
        ControllerState {
            last_update: now_ns,
            current_target: 0,
            deadline_us: ACTUATOR_DEADLINE_US,
        }
    }
}

impl View for Controller {
    type V = ControllerState;

    closed spec fn view(&self) -> ControllerState {
        ControllerState {
            last_update: self.last_update,
            current_target: self.current_target,
            deadline_us: self.deadline_us,
        }
    }
}

/// The feedback a controller emits at the end of a cycle, in this order.
#[derive(Debug, Clone, Copy)]
pub struct CycleFeedback<R> {
    /// What to emit if the cycle overran its deadline.
    pub overrun: Option<FeedbackKind<R>>,
    /// What to emit in any case.
    pub first: FeedbackKind<R>,
    /// What to emit after it, if there is anything.
    pub second: Option<FeedbackKind<R>>,
}

/// The feedback for a cycle that took `elapsed_us` under the deadline
/// `deadline_us` and left the actuator in `state`.
///
/// A cycle past the deadline reports a deadline miss for that. After it, a
/// cycle within `ACK_LIMIT_US` is acknowledged and reports the state, and
/// any slower cycle reports a deadline miss.
pub open spec fn cycle_feedback<R>(elapsed_us: u64, deadline_us: u64, state: R) -> CycleFeedback<R> {
    CycleFeedback {
        overrun: if elapsed_us > deadline_us {
            Some(FeedbackKind::Error(DEADLINE_MISS))
        } else {
            None
        },
        first: if elapsed_us <= ACK_LIMIT_US {
            FeedbackKind::Ack
        } else {
            FeedbackKind::Error(DEADLINE_MISS)
        },
        second: if elapsed_us <= ACK_LIMIT_US {
            Some(FeedbackKind::ActuatorState(state))
        } else {
            None
        },
    }
}

/// The event that reports a finished control computation.
pub open spec fn complete_event(seq: u64, now_ns: u64, control_text: Seq<char>, exec_us: u64) -> EventText {
    EventText::ControllerComplete { seq, ts_ns: now_ns, control_output: control_text, exec_us }
}

impl Controller {
    /// A controller made at `now_ns`, configured for the setpoint zero, with
    /// the cycle deadline `ACTUATOR_DEADLINE_US`.
    pub fn new(now_ns: u64) -> (c: Controller)
        ensures
            c@ == ControllerState::fresh(now_ns),
    {
        Controller { last_update: now_ns, current_target: 0, deadline_us: ACTUATOR_DEADLINE_US }
    }

    /// A controller made at `now_ns`, configured for the setpoint zero, with
    /// the cycle deadline `deadline_us`.
    pub fn with_deadline(now_ns: u64, deadline_us: u64) -> (c: Controller)
        ensures
            c@ == (ControllerState { deadline_us, ..ControllerState::fresh(now_ns) }),
    {
        Controller { last_update: now_ns, current_target: 0, deadline_us }
    }

    /// Logs how long a packet took to reach the actuator stage.
    pub fn record_rx_latency(&self, latency_us: u64, now_ns: u64, sync: &mut SyncManager)
        ensures
            final(sync)@ == old(sync)@.after_rx_latency(latency_us, now_ns),
    {
        sync.record_rx_latency(latency_us, now_ns);
    }

    /// Starts a cycle at `now_ns` and answers the time step for the control
    /// law, in nanoseconds.
    pub fn begin(&mut self, now_ns: u64) -> (dt_ns: u64)
        ensures
            dt_ns == clamped_dt(old(self)@.last_update, now_ns),
            MIN_DT_NS <= dt_ns <= MAX_DT_NS,
            final(self)@ == (ControllerState { last_update: now_ns, ..old(self)@ }),
    {
        let dt = if now_ns < self.last_update {
            MIN_DT_NS
        } else if now_ns - self.last_update < MIN_DT_NS {
            MIN_DT_NS
        } else if now_ns - self.last_update > MAX_DT_NS {
            MAX_DT_NS
        } else {
            now_ns - self.last_update
        };
        self.last_update = now_ns;
        dt
    }

    /// Logs an unstable sensor, one whose raw and filtered values are far
    /// apart, and answers the feedback to emit for it.
    pub fn report_instability<R>(&self, now_ns: u64, sync: &mut SyncManager) -> (kind: FeedbackKind<R>)
        ensures
            kind == FeedbackKind::<R>::Error(UNSTABLE_SENSOR),
            final(sync)@ == old(sync)@.after_custom(INSTABILITY_CODE, now_ns),
    {
        sync.record_custom(INSTABILITY_CODE, now_ns);
        FeedbackKind::Error(UNSTABLE_SENSOR)
    }

    /// Picks the setpoint for a sample of sensor `kind`. Answers the new
    /// setpoint if the control law has to be reconfigured, `None` if it is
    /// configured for it already.
    pub fn retarget(&mut self, kind: SensorType) -> (target: Option<u32>)
        ensures
            target == if setpoint_of(kind) == old(self)@.current_target {
                None
            } else {
                Some(setpoint_of(kind))
            },
            final(self)@ == (ControllerState { current_target: setpoint_of(kind), ..old(self)@ }),
    {
        let new_target = setpoint(kind);
        if new_target != self.current_target {
            self.current_target = new_target;
            Some(new_target)
        } else {
            None
        }
    }

    /// Counts a control law that refused its new setpoint as a miss and
    /// answers the feedback to emit for it.
    pub fn report_config_failure<R>(&self, now_ns: u64, sync: &mut SyncManager) -> (kind: FeedbackKind<R>)
        ensures
            kind == FeedbackKind::<R>::Error(PID_CONFIG_FAILED),
            final(sync)@ == old(sync)@.after_proc_miss(now_ns),
    {
        sync.record_proc_miss(now_ns);
        FeedbackKind::Error(PID_CONFIG_FAILED)
    }

    /// Records the outcome of the control law.
    ///
    /// The new actuator state joins the history of `actuator` and the control
    /// output is reported as an event under the packet's sequence number,
    /// with the time the computation took.
    pub fn complete<R>(
        &self,
        seq: u64,
        control_text: String,
        state: R,
        actuator: ActuatorType,
        exec_us: u64,
        now_ns: u64,
        metrics: &mut Metrics<R>,
        recorder: &mut EventRecorder,
    )
        ensures
            final(metrics)@ == old(metrics)@.after_actuation(actuator, state),
            final(recorder)@ == old(recorder)@.after_record(
                complete_event(seq, now_ns, control_text@, exec_us),
            ),
    {
        metrics.push_actuation(actuator, state);
        recorder.record(
            Event::ControllerComplete {
                seq,
                ts_ns: now_ns,
                control_output: control_text,
                exec_us,
            },
        );
    }

    /// Closes a cycle that took `elapsed_us` and left the actuator in `state`.
    ///
    /// A cycle longer than the deadline is counted as a miss in the sink and
    /// charged to the actuator in the metrics. The answer is the feedback to
    /// emit.
    pub fn finish_cycle<R: Copy>(
        &self,
        elapsed_us: u64,
        state: R,
        now_ns: u64,
        sync: &mut SyncManager,
        metrics: &mut Metrics<R>,
    ) -> (feedback: CycleFeedback<R>)
        ensures
            feedback == cycle_feedback(elapsed_us, self@.deadline_us, state),
            final(sync)@ == if elapsed_us > self@.deadline_us {
                old(sync)@.after_proc_miss(now_ns)
            } else {
                old(sync)@
            },
            final(metrics)@ == if elapsed_us > self@.deadline_us {
                old(metrics)@.after_deadline_miss(DeadlineComponent::Actuator)
            } else {
                old(metrics)@
            },
    {
        let overrun = if elapsed_us > self.deadline_us {
            sync.record_proc_miss(now_ns);
            metrics.record_deadline_miss(DeadlineComponent::Actuator);
            Some(FeedbackKind::Error(DEADLINE_MISS))
        } else {
            None
        };
        if elapsed_us <= ACK_LIMIT_US {
            CycleFeedback {
                overrun,
                first: FeedbackKind::Ack,
                second: Some(FeedbackKind::ActuatorState(state)),
            }
        } else {
            CycleFeedback { overrun, first: FeedbackKind::Error(DEADLINE_MISS), second: None }
        }
    }
}

} // verus!
