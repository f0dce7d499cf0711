//! Routing to the actuators.
//!
//! Each sensor kind has its actuator. A processed sample is offered to the
//! queue of its actuator without waiting; a refused sample is counted as
//! dropped.

use vstd::prelude::*;
use crate::metrics::ActuatorType;
use crate::sensor::{SendOutcome, SensorType};
use crate::sync_manager::SyncManager;

verus! {

/// Samples the queue of one actuator takes.
pub const CHANNEL_CAPACITY: usize = 8;

/// The actuator that samples of sensor `kind` go to.
pub open spec fn route_of(kind: SensorType) -> ActuatorType {
    match kind {
        SensorType::Force => ActuatorType::Gripper,
        SensorType::Position => ActuatorType::Motor,
        SensorType::Temperature => ActuatorType::Stabiliser,
    }
}

/// The name of an actuator, as a sequence of characters.
pub open spec fn actuator_name_of(actuator: ActuatorType) -> Seq<char> {
    match actuator {
        ActuatorType::Gripper => "Gripper"@,
        ActuatorType::Motor => "Motor"@,
        ActuatorType::Stabiliser => "Stabiliser"@,
    }
}

/// The name of an actuator.
pub fn actuator_name(actuator: ActuatorType) -> (name: &'static str)
    ensures
        name@ == actuator_name_of(actuator),
{
    match actuator {
        ActuatorType::Gripper => "Gripper",
        ActuatorType::Motor => "Motor",
        ActuatorType::Stabiliser => "Stabiliser",
    }
}

/// The dispatcher's routing table.
#[derive(Debug, Clone, Copy)]
pub struct MultiActuator {}

impl MultiActuator {
    /// The dispatcher's routing table.
    pub fn new() -> MultiActuator {
        MultiActuator {  }
    }

    /// The actuator whose queue a sample of sensor `kind` is offered to.
    pub fn route(&self, kind: SensorType) -> (actuator: ActuatorType)
        ensures
            actuator == route_of(kind),
    {
        match kind {
            SensorType::Force => ActuatorType::Gripper,
            SensorType::Position => ActuatorType::Motor,
            SensorType::Temperature => ActuatorType::Stabiliser,
        }
    }

    /// Settles a dispatch once the sample was offered to its actuator's queue:
    /// counts a drop unless the queue took it.
    pub fn dispatch(&self, outcome: SendOutcome, now_ns: u64, sync: &mut SyncManager)
        ensures
            final(sync)@ == if outcome == SendOutcome::Sent {
                old(sync)@
            } else {
                old(sync)@.after_tx_drop(now_ns)
            },
    {
        match outcome {
            SendOutcome::Sent => {},
            _ => {
                sync.record_tx_drop(now_ns);
            },
        }
    }
}

} // verus!
