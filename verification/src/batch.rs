//! Batches: the records of one flush in the envelope that is exported.

use vstd::prelude::*;
use crate::opentelclient::any_value::{Value, ValueView};
use crate::opentelclient::{
    record_views, AnyValue, AnyValueView, ExportLogsServiceRequest, KeyValue, KeyValueView,
    LogRecord, LogRecordView, Resource, ResourceLogs, ResourceLogsView, ResourceView, ScopeLogs,
    ScopeLogsView,
};

verus! {

/// The most records that one batch holds.
pub const MAX_BATCH: usize = 1000;

/// The resource of every batch that a process with the given service name
/// sends: the one attribute `service.name`.
pub open spec fn service_resource(service_name: Seq<char>) -> ResourceView {
    ResourceView {
        attributes: seq![
            KeyValueView {
                key: "service.name"@,
                value: Some(AnyValueView { value: Some(ValueView::StringValue(service_name)) }),
            },
        ],
        dropped_attributes_count: 0,
    }
}

/// The batch of the given records: one resource, attached once, and under
/// it one scope group without a scope, which holds the records in order.
pub open spec fn batch_of(service_name: Seq<char>, records: Seq<LogRecordView>) -> Seq<
    ResourceLogsView,
> {
    seq![
        ResourceLogsView {
            resource: Some(service_resource(service_name)),
            scope_logs: seq![
                ScopeLogsView { scope: None, log_records: records, schema_url: Seq::empty() },
            ],
            schema_url: Seq::empty(),
        },
    ]
}

/// The records that a batch made by `batch_of` holds, in export order.
pub open spec fn batch_records(batch: Seq<ResourceLogsView>) -> Seq<LogRecordView>
    recommends
        batch.len() == 1,
        batch[0].scope_logs.len() == 1,
{
    batch[0].scope_logs[0].log_records
}

/// A batch holds the records it was made of, and is told apart by them.
pub proof fn lemma_batch_records(service_name: Seq<char>, records: Seq<LogRecordView>)
    ensures
        batch_records(batch_of(service_name, records)) == records,
{
}

/// Makes the resource that names the service.
pub fn make_resource(service_name: &String) -> (resource: Resource)
    ensures
        resource@ == service_resource(service_name@),
{
    let mut attributes: Vec<KeyValue> = Vec::new();
    attributes.push(
        KeyValue {
            key: "service.name".to_owned(),
            value: Some(AnyValue { value: Some(Value::StringValue(service_name.clone())) }),
        },
    );
    let resource = Resource { attributes, dropped_attributes_count: 0 };
    assert(resource@.attributes =~= service_resource(service_name@).attributes);
    resource
}

/// Moves `records` into a new batch for the service `service_name`.
pub fn make_batch(service_name: &String, records: Vec<LogRecord>) -> (batch:
    ExportLogsServiceRequest)
    ensures
        batch@ == batch_of(service_name@, record_views(records@)),
{
    let ghost views = record_views(records@);
    let mut scope_logs: Vec<ScopeLogs> = Vec::new();
    scope_logs.push(ScopeLogs { scope: None, log_records: records, schema_url: String::new() });
    let logs = ResourceLogs {
        resource: Some(make_resource(service_name)),
        scope_logs,
        schema_url: String::new(),
    };
    assert(logs@.scope_logs =~= seq![
        ScopeLogsView { scope: None, log_records: views, schema_url: Seq::empty() },
    ]);
    let mut resource_logs: Vec<ResourceLogs> = Vec::new();
    resource_logs.push(logs);
    let batch = ExportLogsServiceRequest { resource_logs };
    batch
}

} // verus!
