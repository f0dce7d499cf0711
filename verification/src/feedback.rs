//! Feedback from the actuator stage to the processor.
//!
//! A feedback message reports an acknowledgement, an actuator state or an error
//! code. A message made after the feedback deadline has run out reports the
//! miss in place of what it was meant to say. Sending never waits: the caller
//! offers the message to a bounded channel and forgets it when the channel is
//! full.

use vstd::prelude::*;
use crate::events::{Event, EventRecorder, EventText};

verus! {

/// Messages the feedback channel takes.
pub const FEEDBACK_CAPACITY: usize = 64;

/// The time a feedback message may take from the start of the actuation to
/// its emission, in microseconds.
pub const FEEDBACK_DEADLINE_US: u64 = 500;

/// The error code of a sample whose raw and filtered values are far apart.
pub const UNSTABLE_SENSOR: &'static str = "unstable_sensor";

/// The error code of an actuation that overran its deadline.
pub const DEADLINE_MISS: &'static str = "deadline_miss";

/// The error code of a feedback message that was emitted too late.
pub const FEEDBACK_DEADLINE_MISS: &'static str = "feedback_deadline_miss";

/// The error code of a controller that refused its new setpoint.
pub const PID_CONFIG_FAILED: &'static str = "pid_config_failed";

/// What a feedback message says. `R` is the type of an actuator state.
#[derive(Debug, Clone, Copy)]
pub enum FeedbackKind<R> {
    /// The actuation succeeded.
    Ack,
    /// The state the actuator reached.
    ActuatorState(R),
    /// Something went wrong; the code says what.
    Error(&'static str),
}

/// A feedback message.
#[derive(Debug, Clone, Copy)]
pub struct Feedback<R> {
    pub actuator: &'static str,
    pub kind: FeedbackKind<R>,
    pub timestamp: u64,
    pub seq: u64,
}

/// The producer side of the feedback channel.
#[derive(Debug, Clone, Copy)]
pub struct FeedbackLoop {
    deadline_us: u64,
}

/// The message that leaves when `kind` is emitted `elapsed_us` microseconds
/// into an actuation, under a feedback deadline of `deadline_us`.
pub open spec fn emitted<R>(
    deadline_us: u64,
    actuator: &'static str,
    kind: FeedbackKind<R>,
    elapsed_us: u64,
    now_ns: u64,
) -> Feedback<R> {
    Feedback {
        actuator,
        kind: if elapsed_us > deadline_us {
            FeedbackKind::Error(FEEDBACK_DEADLINE_MISS)
        } else {
            kind
        },
        timestamp: now_ns,
        seq: 0,
    }
}

impl FeedbackLoop {
    /// A producer with the feedback deadline `FEEDBACK_DEADLINE_US`.
    pub fn new() -> (f: FeedbackLoop)
        ensures
            f.deadline_us() == FEEDBACK_DEADLINE_US,
    {
        FeedbackLoop { deadline_us: FEEDBACK_DEADLINE_US }
    }

    /// A producer with the feedback deadline `deadline_us`.
    pub fn with_deadline(deadline_us: u64) -> (f: FeedbackLoop)
        ensures
            f.deadline_us() == deadline_us,
    {
        FeedbackLoop { deadline_us }
    }

    /// The feedback deadline in microseconds.
    pub closed spec fn deadline_us(self) -> u64 {
        self.deadline_us
    }

    /// The feedback deadline in microseconds.
    pub fn deadline(&self) -> (us: u64)
        ensures
            us == self.deadline_us(),
    {
        self.deadline_us
    }

    /// Makes the message for `kind` and records that feedback was sent.
    ///
    /// `elapsed_us` is the time since the actuation started. When it exceeds
    /// the feedback deadline, the message reports `FEEDBACK_DEADLINE_MISS`
    /// whatever `kind` was. The caller offers the returned message to the
    /// feedback channel without waiting.
    pub fn emit<R>(
        &self,
        actuator: &'static str,
        kind: FeedbackKind<R>,
        elapsed_us: u64,
        now_ns: u64,
        recorder: &mut EventRecorder,
    ) -> (msg: Feedback<R>)
        ensures
            msg == emitted(self.deadline_us(), actuator, kind, elapsed_us, now_ns),
            final(recorder)@ == old(recorder)@.after_record(
                EventText::FeedbackSent { seq: 0, ts_ns: now_ns },
            ),
    {
        let seq: u64 = 0;
        let feedback = if elapsed_us > self.deadline_us {
            Feedback {
                actuator,
                kind: FeedbackKind::Error(FEEDBACK_DEADLINE_MISS),
                timestamp: now_ns,
                seq,
            }
        } else {
            Feedback { actuator, kind, timestamp: now_ns, seq }
        };
        recorder.record(Event::FeedbackSent { seq, ts_ns: now_ns });
        feedback
    }
}

} // verus!
