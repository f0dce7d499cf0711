//! The bounded queue of raw telemetry records.
//!
//! The queue itself is `crossbeam_queue::ArrayQueue`. Everything in this file is
//! believed, not proved: it states how that queue behaves while one owner holds
//! it exclusively.

use vstd::prelude::*;
use crossbeam_queue::ArrayQueue;
use crate::sync_manager::RawLog;

verus! {

#[verifier::external_type_specification]
#[verifier::external_body]
#[verifier::reject_recursive_types(T)]
pub struct ExArrayQueue<T>(crossbeam_queue::ArrayQueue<T>);

/// The records a log queue holds, oldest first.
pub uninterp spec fn log_queue_items(q: ArrayQueue<RawLog>) -> Seq<RawLog>;

/// The number of records a log queue was built to hold.
pub uninterp spec fn log_queue_limit(q: ArrayQueue<RawLog>) -> nat;

/// `ArrayQueue::new`: an empty queue that holds up to `cap` records. The call
/// panics on a zero capacity, which the precondition excludes.
#[verifier::external_body]
pub(crate) fn log_queue_new(cap: usize) -> (q: ArrayQueue<RawLog>)
    requires
        0 < cap <= 0x10_0000,
    ensures
        log_queue_items(q) == Seq::<RawLog>::empty(),
        log_queue_limit(q) == cap,
{
    ArrayQueue::new(cap)
}

/// `ArrayQueue::push`: appends the record at the tail unless the queue is full;
/// a full queue is left as it was and hands the record back.
#[verifier::external_body]
pub(crate) fn log_queue_push(q: &mut ArrayQueue<RawLog>, item: RawLog) -> (r: Result<(), RawLog>)
    ensures
        log_queue_limit(*final(q)) == log_queue_limit(*old(q)),
        r is Ok <==> log_queue_items(*old(q)).len() < log_queue_limit(*old(q)),
        r is Ok ==> log_queue_items(*final(q)) == log_queue_items(*old(q)).push(item),
        r matches Err(back) ==> back == item && log_queue_items(*final(q)) == log_queue_items(
            *old(q),
        ),
{
    q.push(item)
}

/// `ArrayQueue::pop`: removes and returns the oldest record, or returns `None`
/// and changes nothing when the queue is empty.
#[verifier::external_body]
pub(crate) fn log_queue_pop(q: &mut ArrayQueue<RawLog>) -> (r: Option<RawLog>)
    ensures
        log_queue_limit(*final(q)) == log_queue_limit(*old(q)),
        r is None <==> log_queue_items(*old(q)).len() == 0,
        r is None ==> log_queue_items(*final(q)) == log_queue_items(*old(q)),
        r matches Some(item) ==> item == log_queue_items(*old(q))[0] && log_queue_items(*final(q))
            == log_queue_items(*old(q)).subrange(1, log_queue_items(*old(q)).len() as int),
{
    q.pop()
}

/// `ArrayQueue::len`: the number of records in the queue.
#[verifier::external_body]
pub(crate) fn log_queue_len(q: &ArrayQueue<RawLog>) -> (n: usize)
    ensures
        n == log_queue_items(*q).len(),
{
    q.len()
}

/// `ArrayQueue::capacity`: the capacity the queue was built with.
#[verifier::external_body]
pub(crate) fn log_queue_capacity(q: &ArrayQueue<RawLog>) -> (n: usize)
    ensures
        n == log_queue_limit(*q),
{
    q.capacity()
}

} // verus!
