//! The record model: one captured log entry and the envelope it travels in.
//!
//! The types follow the collector's log schema field by field. Each has a
//! view, its mathematical content, in which strings are sequences of
//! characters and lists are sequences.

use vstd::prelude::*;

pub mod any_value;
mod copy;
pub mod flags;
pub mod severity;
mod text;

pub use flags::LogRecordFlags;
pub use severity::SeverityNumber;

use any_value::{Value, ValueView};

verus! {

/// A value of any of the kinds that an attribute may take, or no value.
#[derive(Debug, PartialEq)]
pub struct AnyValue {
    pub value: Option<Value>,
}

/// The mathematical content of an `AnyValue`.
pub ghost struct AnyValueView {
    pub value: Option<ValueView>,
}

impl View for AnyValue {
    type V = AnyValueView;

    open spec fn view(&self) -> AnyValueView
        decreases self,
    {
        AnyValueView {
            value: match self.value {
                Some(v) => Some(v@),
                None => None,
            },
        }
    }
}

/// A list of values.
#[derive(Debug, PartialEq)]
pub struct ArrayValue {
    pub values: Vec<AnyValue>,
}

impl View for ArrayValue {
    type V = Seq<AnyValueView>;

    open spec fn view(&self) -> Seq<AnyValueView>
        decreases self,
    {
        Seq::new(
            self.values.len() as nat,
            |i: int|
                if 0 <= i < self.values.len() {
                    self.values[i]@
                } else {
                    arbitrary()
                },
        )
    }
}

/// A list of key-value pairs.
#[derive(Debug, PartialEq)]
pub struct KeyValueList {
    pub values: Vec<KeyValue>,
}

impl View for KeyValueList {
    type V = Seq<KeyValueView>;

    open spec fn view(&self) -> Seq<KeyValueView>
        decreases self,
    {
        Seq::new(
            self.values.len() as nat,
            |i: int|
                if 0 <= i < self.values.len() {
                    self.values[i]@
                } else {
                    arbitrary()
                },
        )
    }
}

/// An attribute: a key and its value, which may be absent.
#[derive(Debug, PartialEq)]
pub struct KeyValue {
    pub key: String,
    pub value: Option<AnyValue>,
}

/// The mathematical content of a `KeyValue`.
pub ghost struct KeyValueView {
    pub key: Seq<char>,
    pub value: Option<AnyValueView>,
}

impl View for KeyValue {
    type V = KeyValueView;

    open spec fn view(&self) -> KeyValueView
        decreases self,
    {
        KeyValueView {
            key: self.key@,
            value: match self.value {
                Some(v) => Some(v@),
                None => None,
            },
        }
    }
}

/// The views of a list of attributes, in order.
pub open spec fn key_value_views(attributes: Seq<KeyValue>) -> Seq<KeyValueView> {
    attributes.map_values(|kv: KeyValue| kv@)
}

/// The instrumentation scope that produced a group of records.
#[derive(Debug, PartialEq)]
pub struct InstrumentationScope {
    pub name: String,
    pub version: String,
    pub attributes: Vec<KeyValue>,
    pub dropped_attributes_count: u32,
}

/// The mathematical content of an `InstrumentationScope`.
pub ghost struct InstrumentationScopeView {
    pub name: Seq<char>,
    pub version: Seq<char>,
    pub attributes: Seq<KeyValueView>,
    pub dropped_attributes_count: nat,
}

impl View for InstrumentationScope {
    type V = InstrumentationScopeView;

    open spec fn view(&self) -> InstrumentationScopeView {
        InstrumentationScopeView {
            name: self.name@,
            version: self.version@,
            attributes: key_value_views(self.attributes@),
            dropped_attributes_count: self.dropped_attributes_count as nat,
        }
    }
}

/// Static metadata that identifies the emitting process.
#[derive(Debug, PartialEq)]
pub struct Resource {
    pub attributes: Vec<KeyValue>,
    pub dropped_attributes_count: u32,
}

/// The mathematical content of a `Resource`.
pub ghost struct ResourceView {
    pub attributes: Seq<KeyValueView>,
    pub dropped_attributes_count: nat,
}

impl View for Resource {
    type V = ResourceView;

    open spec fn view(&self) -> ResourceView {
        ResourceView {
            attributes: key_value_views(self.attributes@),
            dropped_attributes_count: self.dropped_attributes_count as nat,
        }
    }
}

/// One captured log entry.
#[derive(Debug, PartialEq)]
pub struct LogRecord {
    /// When the event occurred, in nanoseconds since the Unix epoch.
    pub time_unix_nano: u64,
    /// When the event was observed, in nanoseconds since the Unix epoch.
    pub observed_time_unix_nano: u64,
    /// The severity ordinal.
    pub severity_number: i32,
    /// The severity as it is known at the source.
    pub severity_text: String,
    /// The rendered message.
    pub body: Option<AnyValue>,
    pub attributes: Vec<KeyValue>,
    pub dropped_attributes_count: u32,
    pub flags: u32,
    pub trace_id: Vec<u8>,
    pub span_id: Vec<u8>,
}

/// The mathematical content of a `LogRecord`.
pub ghost struct LogRecordView {
    pub time_unix_nano: nat,
    pub observed_time_unix_nano: nat,
    pub severity_number: int,
    pub severity_text: Seq<char>,
    pub body: Option<AnyValueView>,
    pub attributes: Seq<KeyValueView>,
    pub dropped_attributes_count: nat,
    pub flags: nat,
    pub trace_id: Seq<u8>,
    pub span_id: Seq<u8>,
}

impl View for LogRecord {
    type V = LogRecordView;

    open spec fn view(&self) -> LogRecordView {
        LogRecordView {
            time_unix_nano: self.time_unix_nano as nat,
            observed_time_unix_nano: self.observed_time_unix_nano as nat,
            severity_number: self.severity_number as int,
            severity_text: self.severity_text@,
            body: match self.body {
                Some(v) => Some(v@),
                None => None,
            },
            attributes: key_value_views(self.attributes@),
            dropped_attributes_count: self.dropped_attributes_count as nat,
            flags: self.flags as nat,
            trace_id: self.trace_id@,
            span_id: self.span_id@,
        }
    }
}

/// The views of a list of records, in order.
pub open spec fn record_views(records: Seq<LogRecord>) -> Seq<LogRecordView> {
    records.map_values(|r: LogRecord| r@)
}

/// The records of one instrumentation scope.
#[derive(Debug, PartialEq)]
pub struct ScopeLogs {
    pub scope: Option<InstrumentationScope>,
    pub log_records: Vec<LogRecord>,
    pub schema_url: String,
}

/// The mathematical content of a `ScopeLogs`.
pub ghost struct ScopeLogsView {
    pub scope: Option<InstrumentationScopeView>,
    pub log_records: Seq<LogRecordView>,
    pub schema_url: Seq<char>,
}

impl View for ScopeLogs {
    type V = ScopeLogsView;

    open spec fn view(&self) -> ScopeLogsView {
        ScopeLogsView {
            scope: match self.scope {
                Some(s) => Some(s@),
                None => None,
            },
            log_records: record_views(self.log_records@),
            schema_url: self.schema_url@,
        }
    }
}

/// The records of one resource, grouped by scope.
#[derive(Debug, PartialEq)]
pub struct ResourceLogs {
    pub resource: Option<Resource>,
    pub scope_logs: Vec<ScopeLogs>,
    pub schema_url: String,
}

/// The mathematical content of a `ResourceLogs`.
pub ghost struct ResourceLogsView {
    pub resource: Option<ResourceView>,
    pub scope_logs: Seq<ScopeLogsView>,
    pub schema_url: Seq<char>,
}

impl View for ResourceLogs {
    type V = ResourceLogsView;

    open spec fn view(&self) -> ResourceLogsView {
        ResourceLogsView {
            resource: match self.resource {
                Some(r) => Some(r@),
                None => None,
            },
            scope_logs: self.scope_logs@.map_values(|s: ScopeLogs| s@),
            schema_url: self.schema_url@,
        }
    }
}

/// Log data as it can be stored or embedded in another protocol.
#[derive(Debug, PartialEq)]
pub struct LogsData {
    pub resource_logs: Vec<ResourceLogs>,
}

impl View for LogsData {
    type V = Seq<ResourceLogsView>;

    open spec fn view(&self) -> Seq<ResourceLogsView> {
        self.resource_logs@.map_values(|r: ResourceLogs| r@)
    }
}

/// The unit of export: what one export call ships.
#[derive(Debug, PartialEq)]
pub struct ExportLogsServiceRequest {
    pub resource_logs: Vec<ResourceLogs>,
}

impl View for ExportLogsServiceRequest {
    type V = Seq<ResourceLogsView>;

    open spec fn view(&self) -> Seq<ResourceLogsView> {
        self.resource_logs@.map_values(|r: ResourceLogs| r@)
    }
}

/// What the collector says of records that it did not accept.
#[derive(Debug, PartialEq)]
pub struct ExportLogsPartialSuccess {
    pub rejected_log_records: i64,
    pub error_message: String,
}

/// The mathematical content of an `ExportLogsPartialSuccess`.
pub ghost struct ExportLogsPartialSuccessView {
    pub rejected_log_records: int,
    pub error_message: Seq<char>,
}

impl View for ExportLogsPartialSuccess {
    type V = ExportLogsPartialSuccessView;

    open spec fn view(&self) -> ExportLogsPartialSuccessView {
        ExportLogsPartialSuccessView {
            rejected_log_records: self.rejected_log_records as int,
            error_message: self.error_message@,
        }
    }
}

/// The collector's answer to an export call that went through.
#[derive(Debug, PartialEq)]
pub struct ExportLogsServiceResponse {
    pub partial_success: Option<ExportLogsPartialSuccess>,
}

impl View for ExportLogsServiceResponse {
    type V = Option<ExportLogsPartialSuccessView>;

    open spec fn view(&self) -> Option<ExportLogsPartialSuccessView> {
        match self.partial_success {
            Some(p) => Some(p@),
            None => None,
        }
    }
}

} // verus!
