//! Event capture: from an emitted event to a record in the queue.

use vstd::prelude::*;
use crate::fields::FieldVisitor;
use crate::level::{display_level, Level};
use crate::opentelclient::any_value::{Value, ValueView};
use crate::opentelclient::{AnyValue, AnyValueView, KeyValue, KeyValueView, LogRecord, LogRecordView};
use crate::queue::BoundedQueue;

verus! {

/// What an event says of itself besides its fields: its level and, where
/// known, the place in the source that emitted it.
pub struct EventMetadata {
    pub level: Level,
    pub file: Option<String>,
    pub line: Option<u32>,
}

/// The mathematical content of an `EventMetadata`.
pub ghost struct EventMetadataView {
    pub level: Level,
    pub file: Option<Seq<char>>,
    pub line: Option<nat>,
}

impl View for EventMetadata {
    type V = EventMetadataView;

    open spec fn view(&self) -> EventMetadataView {
        EventMetadataView {
            level: self.level,
            file: match self.file {
                Some(f) => Some(f@),
                None => None,
            },
            line: match self.line {
                Some(l) => Some(l as nat),
                None => None,
            },
        }
    }
}

/// The event carries no `message` field, so no record can be made of it.
#[derive(Clone, Copy, Debug, PartialEq, Eq, Structural)]
pub struct MissingBodyError;

/// What became of a captured event.
#[derive(Debug, PartialEq)]
pub enum Captured {
    /// The event is below `Info`: nothing was made of it.
    Filtered,
    /// The event's record is now the newest item of the queue.
    Enqueued,
    /// The queue is full. The record is handed back for the producer to put
    /// once there is room.
    Saturated(LogRecord),
}

/// The name of the field that holds an event's message.
pub open spec fn message_field() -> Seq<char> {
    "message"@
}

/// The attribute that names the emitting source file.
pub open spec fn file_attribute(file: Option<Seq<char>>) -> KeyValueView {
    KeyValueView {
        key: "file"@,
        value: match file {
            Some(f) => Some(AnyValueView { value: Some(ValueView::StringValue(f)) }),
            None => None,
        },
    }
}

/// The attribute that gives the emitting line.
pub open spec fn line_attribute(line: Option<nat>) -> KeyValueView {
    KeyValueView {
        key: "line"@,
        value: match line {
            Some(l) => Some(AnyValueView { value: Some(ValueView::IntValue(l as int)) }),
            None => None,
        },
    }
}

/// The record of an event with the given metadata and message, captured at
/// `unix_nano` nanoseconds since the Unix epoch.
///
/// The one clock reading serves as event time and as observed time. The
/// attributes are the source file and line, in this order, each without a
/// value where the metadata has none. No correlation identifiers are set.
pub open spec fn record_of(metadata: EventMetadataView, message: Seq<char>, unix_nano: nat)
    -> LogRecordView {
    LogRecordView {
        time_unix_nano: unix_nano,
        observed_time_unix_nano: unix_nano,
        severity_number: metadata.level.ordinal(),
        severity_text: metadata.level.label(),
        body: Some(AnyValueView { value: Some(ValueView::StringValue(message)) }),
        attributes: seq![file_attribute(metadata.file), line_attribute(metadata.line)],
        dropped_attributes_count: 0,
        flags: 0,
        trace_id: Seq::empty(),
        span_id: Seq::empty(),
    }
}

/// What capture makes of an event, before the queue is touched: nothing
/// for an event below `Info`, a failure for a forwarded event without a
/// message, and the event's record otherwise.
pub open spec fn conversion(
    metadata: EventMetadataView,
    fields: Map<Seq<char>, Seq<char>>,
    unix_nano: nat,
) -> Result<Option<LogRecordView>, MissingBodyError> {
    if !metadata.level.forwarded() {
        Ok(None)
    } else if !fields.contains_key(message_field()) {
        Err(MissingBodyError)
    } else {
        Ok(Some(record_of(metadata, fields[message_field()], unix_nano)))
    }
}

fn make_file_attribute(file: &Option<String>) -> (attribute: KeyValue)
    ensures
        attribute@ == file_attribute(
            match *file {
                Some(f) => Some(f@),
                None => None,
            },
        ),
{
    let value = match file {
        Some(f) => Some(AnyValue { value: Some(Value::StringValue(f.clone())) }),
        None => None,
    };
    KeyValue { key: "file".to_owned(), value }
}

fn make_line_attribute(line: Option<u32>) -> (attribute: KeyValue)
    ensures
        attribute@ == line_attribute(
            match line {
                Some(l) => Some(l as nat),
                None => None,
            },
        ),
{
    let value = match line {
        Some(l) => Some(AnyValue { value: Some(Value::IntValue(l as i64)) }),
        None => None,
    };
    KeyValue { key: "line".to_owned(), value }
}

impl LogRecord {
    /// Makes the record of an event from its metadata, its visited fields
    /// and the time of capture. Fails if no `message` field was visited.
    pub fn from_event(metadata: &EventMetadata, fields: &FieldVisitor, unix_nano: u64) -> (made:
        Result<LogRecord, MissingBodyError>)
        ensures
            match made {
                Ok(record) => fields@.contains_key(message_field()) && record@ == record_of(
                    metadata@,
                    fields@[message_field()],
                    unix_nano as nat,
                ),
                Err(_) => !fields@.contains_key(message_field()),
            },
    {
        let body = match fields.get("message") {
            Some(message) => message.clone(),
            None => { return Err(MissingBodyError); },
        };
        let mut attributes: Vec<KeyValue> = Vec::new();
        attributes.push(make_file_attribute(&metadata.file));
        attributes.push(make_line_attribute(metadata.line));
        let record = LogRecord {
            time_unix_nano: unix_nano,
            observed_time_unix_nano: unix_nano,
            severity_number: metadata.level.severity_number(),
            severity_text: display_level(metadata.level),
            body: Some(AnyValue { value: Some(Value::StringValue(body)) }),
            attributes,
            dropped_attributes_count: 0,
            flags: 0,
            trace_id: Vec::new(),
            span_id: Vec::new(),
        };
        assert(record@.attributes =~= seq![
            file_attribute(metadata@.file),
            line_attribute(metadata@.line),
        ]);
        Ok(record)
    }
}

/// Truncates a count of nanoseconds since the Unix epoch to the 64 bits of
/// a record's timestamp.
pub fn unix_nano_of(nanos: u128) -> (stamp: u64)
    ensures
        stamp == nanos % 0x1_0000_0000_0000_0000,
{
    (nanos % 0x1_0000_0000_0000_0000) as u64
}

/// Decides what to make of an event: drops it if it is below `Info`, and
/// makes its record otherwise.
pub fn convert(metadata: &EventMetadata, fields: &FieldVisitor, unix_nano: u64) -> (made: Result<
    Option<LogRecord>,
    MissingBodyError,
>)
    ensures
        match made {
            Ok(Some(record)) => conversion(metadata@, fields@, unix_nano as nat) == Ok::<
                Option<LogRecordView>,
                MissingBodyError,
            >(Some(record@)),
            Ok(None) => conversion(metadata@, fields@, unix_nano as nat) == Ok::<
                Option<LogRecordView>,
                MissingBodyError,
            >(None),
            Err(e) => conversion(metadata@, fields@, unix_nano as nat) == Err::<
                Option<LogRecordView>,
                MissingBodyError,
            >(e),
        },
{
    if !metadata.level.is_forwarded() {
        return Ok(None);
    }
    match LogRecord::from_event(metadata, fields, unix_nano) {
        Ok(record) => Ok(Some(record)),
        Err(e) => Err(e),
    }
}

/// Captures one event: converts it and, if a record came of it, puts the
/// record into `queue`.
///
/// - An event below `Info` leaves the queue as it is.
/// - So does a forwarded event without a message, and capture fails.
/// - A forwarded event with a message adds exactly one record, its own, at
///   the end of the queue. Where the queue is full the record is handed
///   back instead and the queue is left as it is, so that the producer can
///   wait for room.
pub fn capture(
    queue: &mut BoundedQueue<LogRecord>,
    metadata: &EventMetadata,
    fields: &FieldVisitor,
    unix_nano: u64,
) -> (outcome: Result<Captured, MissingBodyError>)
    ensures
        final(queue).spec_capacity() == old(queue).spec_capacity(),
        final(queue)@.len() <= final(queue).spec_capacity(),
        !metadata@.level.forwarded() ==> {
            &&& outcome == Ok::<Captured, MissingBodyError>(Captured::Filtered)
            &&& final(queue)@ == old(queue)@
        },
        metadata@.level.forwarded() && !fields@.contains_key(message_field()) ==> {
            &&& outcome == Err::<Captured, MissingBodyError>(MissingBodyError)
            &&& final(queue)@ == old(queue)@
        },
        metadata@.level.forwarded() && fields@.contains_key(message_field()) && old(queue)@.len()
            < old(queue).spec_capacity() ==> {
            &&& outcome == Ok::<Captured, MissingBodyError>(Captured::Enqueued)
            &&& final(queue)@.len() == old(queue)@.len() + 1
            &&& final(queue)@.drop_last() == old(queue)@
            &&& final(queue)@.last()@ == record_of(
                metadata@,
                fields@[message_field()],
                unix_nano as nat,
            )
        },
        metadata@.level.forwarded() && fields@.contains_key(message_field()) && old(queue)@.len()
            >= old(queue).spec_capacity() ==> {
            &&& outcome matches Ok(Captured::Saturated(record))
            &&& record@ == record_of(metadata@, fields@[message_field()], unix_nano as nat)
            &&& final(queue)@ == old(queue)@
        },
{
    proof {
        use_type_invariant(&*queue);
        queue.lemma_within_capacity();
    }
    match convert(metadata, fields, unix_nano) {
        Err(e) => Err(e),
        Ok(None) => Ok(Captured::Filtered),
        Ok(Some(record)) => {
            match queue.try_put(record) {
                Ok(()) => {
                    Ok(Captured::Enqueued)
                },
                Err(record) => Ok(Captured::Saturated(record)),
            }
        },
    }
}

} // verus!
