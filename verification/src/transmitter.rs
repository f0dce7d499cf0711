//! The hand-off from the processor to the actuator stage.
//!
//! The transmitter never waits. A packet that finds the queue at or above the
//! backpressure threshold is dropped without being offered; a packet that the
//! queue refuses is dropped as well. Every drop is counted in the sink.

use vstd::prelude::*;
use crate::sensor::SendOutcome;
use crate::sync_manager::SyncManager;

verus! {

/// The queue length at which the transmitter stops offering packets, unless
/// another threshold is asked for.
pub const DEFAULT_MAX_QUEUED: usize = 1024;

/// The processor's end of the queue to the actuator stage.
#[derive(Debug, Clone, Copy)]
pub struct Transmitter {
    max_queued: usize,
}

impl Transmitter {
    /// A transmitter that drops packets once `max_queued` are waiting.
    pub fn new(max_queued: usize) -> (t: Transmitter)
        ensures
            t.max_queued() == max_queued,
    {
        Transmitter { max_queued }
    }

    /// The backpressure threshold.
    pub closed spec fn max_queued(self) -> usize {
        self.max_queued
    }

    /// The backpressure threshold.
    pub fn threshold(&self) -> (n: usize)
        ensures
            n == self.max_queued(),
    {
        self.max_queued
    }

    /// The first half of a hand-off, before the queue is touched.
    ///
    /// `queue_len` is the number of packets waiting. Below the threshold the
    /// answer is `true`: offer the packet to the queue, then report the outcome
    /// to `after_send`. At or above it the packet is dropped here, the drop is
    /// counted and the answer is `false`.
    pub fn transmit(&self, queue_len: usize, now_ns: u64, sync: &mut SyncManager) -> (offer: bool)
        ensures
            offer == (queue_len < self.max_queued()),
            final(sync)@ == if offer {
                old(sync)@
            } else {
                old(sync)@.after_tx_drop(now_ns)
            },
    {
        if queue_len >= self.max_queued {
            sync.record_tx_drop(now_ns);
            false
        } else {
            true
        }
    }

    /// The second half of a hand-off: counts a drop unless the queue took the
    /// packet.
    pub fn after_send(&self, outcome: SendOutcome, now_ns: u64, sync: &mut SyncManager)
        ensures
            final(sync)@ == if outcome == SendOutcome::Sent {
                old(sync)@
            } else {
                old(sync)@.after_tx_drop(now_ns)
            },
    {
        match outcome {
            SendOutcome::Sent => {},
            _ => {
                sync.record_tx_drop(now_ns);
            },
        }
    }
}

} // verus!
