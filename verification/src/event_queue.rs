//! The ring of lifecycle events.
//!
//! The ring is `crossbeam_queue::ArrayQueue`. Everything in this file is
//! believed, not proved: it states how that queue behaves while one owner holds
//! it exclusively.

use vstd::prelude::*;
use crossbeam_queue::ArrayQueue;
use crate::events::Event;

verus! {

/// The events an event ring holds, oldest first.
pub uninterp spec fn event_queue_items(q: ArrayQueue<Event>) -> Seq<Event>;

/// The number of events an event ring was built to hold.
pub uninterp spec fn event_queue_limit(q: ArrayQueue<Event>) -> nat;

/// `ArrayQueue::new`: an empty ring that holds up to `cap` events. The call
/// panics on a zero capacity, which the precondition excludes.
#[verifier::external_body]
pub(crate) fn event_queue_new(cap: usize) -> (q: ArrayQueue<Event>)
    requires
        0 < cap <= 0x10_0000,
    ensures
        event_queue_items(q) == Seq::<Event>::empty(),
        event_queue_limit(q) == cap,
{
    ArrayQueue::new(cap)
}

/// `ArrayQueue::push`: appends the event at the tail unless the ring is full;
/// a full ring is left as it was and hands the event back.
#[verifier::external_body]
pub(crate) fn event_queue_push(q: &mut ArrayQueue<Event>, item: Event) -> (r: Result<(), Event>)
    ensures
        event_queue_limit(*final(q)) == event_queue_limit(*old(q)),
        r is Ok <==> event_queue_items(*old(q)).len() < event_queue_limit(*old(q)),
        r is Ok ==> event_queue_items(*final(q)) == event_queue_items(*old(q)).push(item),
        r matches Err(back) ==> back == item && event_queue_items(*final(q)) == event_queue_items(
            *old(q),
        ),
{
    q.push(item)
}

/// `ArrayQueue::pop`: removes and returns the oldest event, or returns `None`
/// and changes nothing when the ring is empty.
#[verifier::external_body]
pub(crate) fn event_queue_pop(q: &mut ArrayQueue<Event>) -> (r: Option<Event>)
    ensures
        event_queue_limit(*final(q)) == event_queue_limit(*old(q)),
        r is None <==> event_queue_items(*old(q)).len() == 0,
        r is None ==> event_queue_items(*final(q)) == event_queue_items(*old(q)),
        r matches Some(item) ==> item == event_queue_items(*old(q))[0] && event_queue_items(
            *final(q),
        ) == event_queue_items(*old(q)).subrange(1, event_queue_items(*old(q)).len() as int),
{
    q.pop()
}

/// `ArrayQueue::is_empty`: whether the ring holds no event.
#[verifier::external_body]
pub(crate) fn event_queue_is_empty(q: &ArrayQueue<Event>) -> (empty: bool)
    ensures
        empty == (event_queue_items(*q).len() == 0),
{
    q.is_empty()
}

} // verus!
