//! Lifecycle events and the ring that records them.
//!
//! Every stage of the pipeline reports what it did to one sample as an event
//! stamped with the sample's sequence number and a relative time in
//! nanoseconds. The ring never makes a stage wait: when it is full, the event
//! is dropped. A real-valued payload is kept as the decimal text it is
//! exported with.

use vstd::prelude::*;
use vstd::string::StringExecFns;
use crossbeam_queue::ArrayQueue;
use crate::event_queue::{
    event_queue_is_empty, event_queue_items, event_queue_limit, event_queue_new, event_queue_pop,
    event_queue_push,
};
use crate::text::{
    bool_text, count_char, decimal, lemma_count_absent, lemma_count_concat,
    lemma_decimal_digits_only, push_bool, push_decimal,
};

verus! {

/// Events the ring holds unless another capacity is asked for.
pub const EVENT_QUEUE_CAPACITY: usize = 16_384;

/// The largest capacity an event ring may be built with.
pub const MAX_EVENT_CAPACITY: usize = 0x10_0000;

/// The column names of the event log.
pub const EVENT_CSV_HEADER: &'static str = "seq,pipeline,component,event,ts_ns,field1,field2,field3";

/// One step in the life of a sample.
#[derive(Debug, Clone, PartialEq, Eq)]
pub enum Event {
    /// A sensor released a sample.
    SensorRelease { seq: u64, ts_ns: u64, sensor_type: String },
    /// The processor filtered a sample and checked it for an anomaly.
    SensorProcessed { seq: u64, ts_ns: u64, filtered_value: String, is_anomaly: bool },
    /// A sensor tried to enqueue a sample for the processor.
    SensorSent { seq: u64, ts_ns: u64, enqueued: bool, queue_len: u32 },
    /// The dispatcher took a processed sample off its queue.
    ActuatorReceive { seq: u64, ts_ns: u64 },
    /// A controller computed its control output.
    ControllerComplete { seq: u64, ts_ns: u64, control_output: String, exec_us: u64 },
    /// An actuator sent feedback.
    FeedbackSent { seq: u64, ts_ns: u64 },
    /// The processor received feedback.
    FeedbackReceived { seq: u64, ts_ns: u64 },
}

/// An event with its texts as sequences of characters.
pub enum EventText {
    SensorRelease { seq: u64, ts_ns: u64, sensor_type: Seq<char> },
    SensorProcessed { seq: u64, ts_ns: u64, filtered_value: Seq<char>, is_anomaly: bool },
    SensorSent { seq: u64, ts_ns: u64, enqueued: bool, queue_len: u32 },
    ActuatorReceive { seq: u64, ts_ns: u64 },
    ControllerComplete { seq: u64, ts_ns: u64, control_output: Seq<char>, exec_us: u64 },
    FeedbackSent { seq: u64, ts_ns: u64 },
    FeedbackReceived { seq: u64, ts_ns: u64 },
}

impl View for Event {
    type V = EventText;

    open spec fn view(&self) -> EventText {
        match *self {
            Event::SensorRelease { seq, ts_ns, sensor_type } => EventText::SensorRelease {
                seq,
                ts_ns,
                sensor_type: sensor_type@,
            },
            Event::SensorProcessed {
                seq,
                ts_ns,
                filtered_value,
                is_anomaly,
            } => EventText::SensorProcessed {
                seq,
                ts_ns,
                filtered_value: filtered_value@,
                is_anomaly,
            },
            Event::SensorSent { seq, ts_ns, enqueued, queue_len } => EventText::SensorSent {
                seq,
                ts_ns,
                enqueued,
                queue_len,
            },
            Event::ActuatorReceive { seq, ts_ns } => EventText::ActuatorReceive { seq, ts_ns },
            Event::ControllerComplete {
                seq,
                ts_ns,
                control_output,
                exec_us,
            } => EventText::ControllerComplete {
                seq,
                ts_ns,
                control_output: control_output@,
                exec_us,
            },
            Event::FeedbackSent { seq, ts_ns } => EventText::FeedbackSent { seq, ts_ns },
            Event::FeedbackReceived { seq, ts_ns } => EventText::FeedbackReceived { seq, ts_ns },
        }
    }
}

impl EventText {
    /// The sequence number of the sample the event is about.
    pub open spec fn seq(self) -> u64 {
        match self {
            EventText::SensorRelease { seq, .. } => seq,
            EventText::SensorProcessed { seq, .. } => seq,
            EventText::SensorSent { seq, .. } => seq,
            EventText::ActuatorReceive { seq, .. } => seq,
            EventText::ControllerComplete { seq, .. } => seq,
            EventText::FeedbackSent { seq, .. } => seq,
            EventText::FeedbackReceived { seq, .. } => seq,
        }
    }

    /// The relative time of the event, in nanoseconds.
    pub open spec fn ts_ns(self) -> u64 {
        match self {
            EventText::SensorRelease { ts_ns, .. } => ts_ns,
            EventText::SensorProcessed { ts_ns, .. } => ts_ns,
            EventText::SensorSent { ts_ns, .. } => ts_ns,
            EventText::ActuatorReceive { ts_ns, .. } => ts_ns,
            EventText::ControllerComplete { ts_ns, .. } => ts_ns,
            EventText::FeedbackSent { ts_ns, .. } => ts_ns,
            EventText::FeedbackReceived { ts_ns, .. } => ts_ns,
        }
    }

    /// The component column: the side of the pipeline the event comes from.
    pub open spec fn component(self) -> Seq<char> {
        match self {
            EventText::SensorRelease { .. } => "sensor"@,
            EventText::SensorProcessed { .. } => "sensor"@,
            EventText::SensorSent { .. } => "sensor"@,
            EventText::ActuatorReceive { .. } => "actuator"@,
            EventText::ControllerComplete { .. } => "actuator"@,
            EventText::FeedbackSent { .. } => "actuator"@,
            EventText::FeedbackReceived { .. } => "sensor"@,
        }
    }

    /// The event column: the name of the event.
    pub open spec fn name(self) -> Seq<char> {
        match self {
            EventText::SensorRelease { .. } => "SensorRelease"@,
            EventText::SensorProcessed { .. } => "SensorProcessed"@,
            EventText::SensorSent { .. } => "SensorSent"@,
            EventText::ActuatorReceive { .. } => "ActuatorReceive"@,
            EventText::ControllerComplete { .. } => "ControllerComplete"@,
            EventText::FeedbackSent { .. } => "FeedbackSent"@,
            EventText::FeedbackReceived { .. } => "FeedbackReceived"@,
        }
    }

    /// The first payload column.
    pub open spec fn field1(self) -> Seq<char> {
        match self {
            EventText::SensorRelease { sensor_type, .. } => sensor_type,
            EventText::SensorProcessed { filtered_value, .. } => filtered_value,
            EventText::SensorSent { enqueued, .. } => bool_text(enqueued),
            EventText::ControllerComplete { control_output, .. } => "control_out="@
                + control_output,
            _ => Seq::empty(),
        }
    }

    /// The second payload column.
    pub open spec fn field2(self) -> Seq<char> {
        match self {
            EventText::SensorProcessed { is_anomaly, .. } => bool_text(is_anomaly),
            EventText::SensorSent { queue_len, .. } => decimal(queue_len as nat),
            EventText::ControllerComplete { exec_us, .. } => decimal(exec_us as nat),
            _ => Seq::empty(),
        }
    }

    /// The row of the event log that the event is exported as: sequence
    /// number, pipeline, component, event, time and three payload columns, the
    /// third of which is always empty.
    pub open spec fn csv_row(self) -> Seq<char> {
        decimal(self.seq() as nat) + ",threaded,"@ + self.component() + ","@ + self.name() + ","@
            + decimal(self.ts_ns() as nat) + ","@ + self.field1() + ","@ + self.field2() + ","@
    }
}

impl Event {
    /// The sequence number of the sample the event is about.
    pub fn seq(&self) -> (seq: u64)
        ensures
            seq == self@.seq(),
    {
        match self {
            Event::SensorRelease { seq, .. } => *seq,
            Event::SensorProcessed { seq, .. } => *seq,
            Event::SensorSent { seq, .. } => *seq,
            Event::ActuatorReceive { seq, .. } => *seq,
            Event::ControllerComplete { seq, .. } => *seq,
            Event::FeedbackSent { seq, .. } => *seq,
            Event::FeedbackReceived { seq, .. } => *seq,
        }
    }

    /// The relative time of the event, in nanoseconds.
    pub fn ts_ns(&self) -> (ts_ns: u64)
        ensures
            ts_ns == self@.ts_ns(),
    {
        match self {
            Event::SensorRelease { ts_ns, .. } => *ts_ns,
            Event::SensorProcessed { ts_ns, .. } => *ts_ns,
            Event::SensorSent { ts_ns, .. } => *ts_ns,
            Event::ActuatorReceive { ts_ns, .. } => *ts_ns,
            Event::ControllerComplete { ts_ns, .. } => *ts_ns,
            Event::FeedbackSent { ts_ns, .. } => *ts_ns,
            Event::FeedbackReceived { ts_ns, .. } => *ts_ns,
        }
    }

    fn component(&self) -> (s: &'static str)
        ensures
            s@ == self@.component(),
    {
        match self {
            Event::SensorRelease { .. } => "sensor",
            Event::SensorProcessed { .. } => "sensor",
            Event::SensorSent { .. } => "sensor",
            Event::ActuatorReceive { .. } => "actuator",
            Event::ControllerComplete { .. } => "actuator",
            Event::FeedbackSent { .. } => "actuator",
            Event::FeedbackReceived { .. } => "sensor",
        }
    }

    fn name(&self) -> (s: &'static str)
        ensures
            s@ == self@.name(),
    {
        match self {
            Event::SensorRelease { .. } => "SensorRelease",
            Event::SensorProcessed { .. } => "SensorProcessed",
            Event::SensorSent { .. } => "SensorSent",
            Event::ActuatorReceive { .. } => "ActuatorReceive",
            Event::ControllerComplete { .. } => "ControllerComplete",
            Event::FeedbackSent { .. } => "FeedbackSent",
            Event::FeedbackReceived { .. } => "FeedbackReceived",
        }
    }

    fn push_field1(&self, row: &mut String)
        ensures
            final(row)@ == old(row)@ + self@.field1(),
    {
        match self {
            Event::SensorRelease { sensor_type, .. } => row.append(sensor_type.as_str()),
            Event::SensorProcessed { filtered_value, .. } => row.append(filtered_value.as_str()),
            Event::SensorSent { enqueued, .. } => push_bool(row, *enqueued),
            Event::ControllerComplete { control_output, .. } => {
                row.append("control_out=");
                row.append(control_output.as_str());
                assert(old(row)@ + "control_out="@ + control_output@ =~= old(row)@ + (
                "control_out="@ + control_output@));
            },
            _ => {
                assert(old(row)@ + Seq::<char>::empty() =~= old(row)@);
            },
        }
    }

    fn push_field2(&self, row: &mut String)
        ensures
            final(row)@ == old(row)@ + self@.field2(),
    {
        match self {
            Event::SensorProcessed { is_anomaly, .. } => push_bool(row, *is_anomaly),
            Event::SensorSent { queue_len, .. } => push_decimal(row, *queue_len as u64),
            Event::ControllerComplete { exec_us, .. } => push_decimal(row, *exec_us),
            _ => {
                assert(old(row)@ + Seq::<char>::empty() =~= old(row)@);
            },
        }
    }

    /// The row of the event log for this event, without a line end.
    pub fn to_csv_row(&self) -> (row: String)
        ensures
            row@ == self@.csv_row(),
    {
        let mut row = String::new();
        push_decimal(&mut row, self.seq());
        row.append(",threaded,");
        row.append(self.component());
        row.append(",");
        row.append(self.name());
        row.append(",");
        push_decimal(&mut row, self.ts_ns());
        row.append(",");
        self.push_field1(&mut row);
        row.append(",");
        self.push_field2(&mut row);
        row.append(",");
        assert(Seq::<char>::empty() + decimal(self@.seq() as nat) =~= decimal(self@.seq() as nat));
        row
    }
}

/// The commas within the texts an event carries.
pub open spec fn payload_commas(e: EventText) -> nat {
    match e {
        EventText::SensorRelease { sensor_type, .. } => count_char(sensor_type, ','),
        EventText::SensorProcessed { filtered_value, .. } => count_char(filtered_value, ','),
        EventText::ControllerComplete { control_output, .. } => count_char(control_output, ','),
        _ => 0,
    }
}

proof fn lemma_fixed_texts_have_no_comma(e: EventText)
    ensures
        count_char(e.component(), ',') == 0,
        count_char(e.name(), ',') == 0,
        count_char(e.field1(), ',') + count_char(e.field2(), ',') == payload_commas(e),
        count_char(","@, ',') == 1,
        count_char(",threaded,"@, ',') == 2,
{
    reveal_strlit("sensor");
    reveal_strlit("actuator");
    reveal_strlit("SensorRelease");
    reveal_strlit("SensorProcessed");
    reveal_strlit("SensorSent");
    reveal_strlit("ActuatorReceive");
    reveal_strlit("ControllerComplete");
    reveal_strlit("FeedbackSent");
    reveal_strlit("FeedbackReceived");
    reveal_strlit("control_out=");
    reveal_strlit("true");
    reveal_strlit("false");
    reveal_strlit(",");
    reveal_strlit(",threaded,");
    reveal_strlit("threaded");
    lemma_count_absent(e.component(), ',');
    lemma_count_absent(e.name(), ',');
    lemma_count_absent(bool_text(true), ',');
    lemma_count_absent(bool_text(false), ',');
    lemma_count_absent("control_out="@, ',');
    lemma_count_absent("threaded"@, ',');
    lemma_count_absent(Seq::<char>::empty(), ',');
    assert(","@ =~= seq![',']);
    assert(","@.drop_last() =~= Seq::<char>::empty());
    assert(",threaded,"@ =~= ","@ + "threaded"@ + ","@);
    lemma_count_concat(","@, "threaded"@, ',');
    lemma_count_concat(","@ + "threaded"@, ","@, ',');
    match e {
        EventText::SensorSent { queue_len, .. } => {
            lemma_decimal_digits_only(queue_len as nat, ',');
        },
        EventText::ControllerComplete { control_output, exec_us, .. } => {
            lemma_decimal_digits_only(exec_us as nat, ',');
            lemma_count_concat("control_out="@, control_output, ',');
        },
        _ => {},
    }
}

/// Every row of the event log has the eight columns of its header: it holds
/// seven separating commas, over and above those that stand inside the
/// texts the event carries.
pub proof fn lemma_row_has_eight_columns(e: EventText)
    ensures
        count_char(e.csv_row(), ',') == 7 + payload_commas(e),
{
    lemma_fixed_texts_have_no_comma(e);
    lemma_decimal_digits_only(e.seq() as nat, ',');
    lemma_decimal_digits_only(e.ts_ns() as nat, ',');
    let c = ',';
    let p1 = decimal(e.seq() as nat);
    let p2 = p1 + ",threaded,"@;
    let p3 = p2 + e.component();
    let p4 = p3 + ","@;
    let p5 = p4 + e.name();
    let p6 = p5 + ","@;
    let p7 = p6 + decimal(e.ts_ns() as nat);
    let p8 = p7 + ","@;
    let p9 = p8 + e.field1();
    let p10 = p9 + ","@;
    let p11 = p10 + e.field2();
    lemma_count_concat(p1, ",threaded,"@, c);
    lemma_count_concat(p2, e.component(), c);
    lemma_count_concat(p3, ","@, c);
    lemma_count_concat(p4, e.name(), c);
    lemma_count_concat(p5, ","@, c);
    lemma_count_concat(p6, decimal(e.ts_ns() as nat), c);
    lemma_count_concat(p7, ","@, c);
    lemma_count_concat(p8, e.field1(), c);
    lemma_count_concat(p9, ","@, c);
    lemma_count_concat(p10, e.field2(), c);
    lemma_count_concat(p11, ","@, c);
    assert(e.csv_row() == p11 + ","@);
}

/// The comment line that opens an event log: the number of background load
/// threads of the run.
pub open spec fn load_comment(cpu_load_threads: usize) -> Seq<char> {
    "# cpu_load_threads="@ + decimal(cpu_load_threads as nat)
}

/// The comment line that opens an event log, without a line end.
pub fn format_load_comment(cpu_load_threads: usize) -> (line: String)
    ensures
        line@ == load_comment(cpu_load_threads),
{
    let mut line = "# cpu_load_threads=".to_string();
    push_decimal(&mut line, cpu_load_threads as u64);
    line
}

/// The ring of lifecycle events.
pub struct EventRecorder {
    queue: ArrayQueue<Event>,
}

/// The mathematical state of an event ring.
pub struct RecorderState {
    /// The recorded events that were not exported yet, oldest first.
    pub events: Seq<EventText>,
    /// How many events the ring takes.
    pub capacity: nat,
}

impl RecorderState {
    /// The state after `event` was offered to the ring: a full ring drops it.
    pub open spec fn after_record(self, event: EventText) -> RecorderState {
        if self.events.len() < self.capacity {
            RecorderState { events: self.events.push(event), ..self }
        } else {
            self
        }
    }

    /// The state after the oldest event was taken out.
    pub open spec fn after_pop(self) -> RecorderState {
        if self.events.len() > 0 {
            RecorderState { events: self.events.subrange(1, self.events.len() as int), ..self }
        } else {
            self
        }
    }
}

/// The views of `events`, in order.
pub open spec fn event_texts(events: Seq<Event>) -> Seq<EventText> {
    Seq::new(events.len(), |i: int| events[i]@)
}

impl View for EventRecorder {
    type V = RecorderState;

    closed spec fn view(&self) -> RecorderState {
        RecorderState {
            events: event_texts(event_queue_items(self.queue)),
            capacity: event_queue_limit(self.queue),
        }
    }
}

impl EventRecorder {
    /// An empty ring that takes `EVENT_QUEUE_CAPACITY` events.
    pub fn new() -> (r: EventRecorder)
        ensures
            r@ == (RecorderState { events: Seq::empty(), capacity: EVENT_QUEUE_CAPACITY as nat }),
    {
        EventRecorder::with_capacity(EVENT_QUEUE_CAPACITY)
    }

    /// An empty ring that takes `capacity` events.
    pub fn with_capacity(capacity: usize) -> (r: EventRecorder)
        requires
            0 < capacity <= MAX_EVENT_CAPACITY,
        ensures
            r@ == (RecorderState { events: Seq::empty(), capacity: capacity as nat }),
    {
        let r = EventRecorder { queue: event_queue_new(capacity) };
        assert(r@.events =~= Seq::empty());
        r
    }

    /// Offers an event to the ring. A full ring drops it; the caller is never
    /// made to wait.
    pub fn record(&mut self, event: Event)
        ensures
            final(self)@ == old(self)@.after_record(event@),
    {
        let ghost before = event_queue_items(self.queue);
        let r = event_queue_push(&mut self.queue, event);
        proof {
            if r is Ok {
                assert(event_texts(before.push(event)) =~= event_texts(before).push(event@));
            }
        }
    }

    /// Takes the oldest recorded event out of the ring, if there is one.
    pub fn pop(&mut self) -> (event: Option<Event>)
        ensures
            final(self)@ == old(self)@.after_pop(),
            event is Some <==> old(self)@.events.len() > 0,
            event matches Some(e) ==> e@ == old(self)@.events[0],
    {
        let ghost before = event_queue_items(self.queue);
        let r = event_queue_pop(&mut self.queue);
        proof {
            if r is Some {
                assert(event_texts(before.subrange(1, before.len() as int)) =~= event_texts(
                    before,
                ).subrange(1, before.len() as int));
            }
        }
        r
    }

    /// Whether the ring holds no event.
    pub fn is_empty(&self) -> (empty: bool)
        ensures
            empty == (self@.events.len() == 0),
    {
        event_queue_is_empty(&self.queue)
    }
}

} // verus!
