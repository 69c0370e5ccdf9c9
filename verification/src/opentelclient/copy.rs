//! Copies of the record model: `Clone` for its types.
//!
//! A copy has the same view as the value it was made from.

use vstd::prelude::*;
use super::any_value::Value;
use super::{
    key_value_views, record_views, AnyValue, ArrayValue, ExportLogsPartialSuccess,
    ExportLogsServiceRequest, ExportLogsServiceResponse, InstrumentationScope, KeyValue,
    KeyValueList, LogRecord, LogsData, Resource, ResourceLogs, ScopeLogs,
};

verus! {

fn copy_bytes(bytes: &Vec<u8>) -> (copy: Vec<u8>)
    ensures
        copy@ == bytes@,
{
    let copy = bytes.clone();
    copy
}

fn copy_value(value: &Value) -> (copy: Value)
    ensures
        copy@ == value@,
    decreases value,
{
    match value {
        Value::StringValue(s) => Value::StringValue(s.clone()),
        Value::BoolValue(b) => Value::BoolValue(*b),
        Value::IntValue(i) => Value::IntValue(*i),
        Value::DoubleValue(bits) => Value::DoubleValue(*bits),
        Value::ArrayValue(a) => Value::ArrayValue(ArrayValue { values: copy_any_values(&a.values) }),
        Value::KvlistValue(l) => Value::KvlistValue(
            KeyValueList { values: copy_key_values(&l.values) },
        ),
        Value::BytesValue(b) => Value::BytesValue(copy_bytes(b)),
    }
}

fn copy_any_value(value: &AnyValue) -> (copy: AnyValue)
    ensures
        copy@ == value@,
    decreases value,
{
    AnyValue {
        value: match &value.value {
            Some(v) => Some(copy_value(v)),
            None => None,
        },
    }
}

fn copy_any_values(values: &Vec<AnyValue>) -> (copy: Vec<AnyValue>)
    ensures
        copy@.len() == values@.len(),
        forall|j: int| 0 <= j < values@.len() ==> copy@[j]@ == values@[j]@,
        (ArrayValue { values: copy })@ == (ArrayValue { values: *values })@,
    decreases values,
{
    let mut copy: Vec<AnyValue> = Vec::new();
    let mut i: usize = 0;
    while i < values.len()
        invariant
            i <= values@.len(),
            copy@.len() == i,
            forall|j: int| 0 <= j < i ==> copy@[j]@ == values@[j]@,
        decreases values@.len() - i,
    {
        copy.push(copy_any_value(&values[i]));
        i += 1;
    }
    copy
}

fn copy_key_value(pair: &KeyValue) -> (copy: KeyValue)
    ensures
        copy@ == pair@,
    decreases pair,
{
    KeyValue {
        key: pair.key.clone(),
        value: match &pair.value {
            Some(v) => Some(copy_any_value(v)),
            None => None,
        },
    }
}

fn copy_key_values(pairs: &Vec<KeyValue>) -> (copy: Vec<KeyValue>)
    ensures
        key_value_views(copy@) == key_value_views(pairs@),
        (KeyValueList { values: copy })@ == (KeyValueList { values: *pairs })@,
    decreases pairs,
{
    let mut copy: Vec<KeyValue> = Vec::new();
    let mut i: usize = 0;
    while i < pairs.len()
        invariant
            i <= pairs@.len(),
            copy@.len() == i,
            forall|j: int| 0 <= j < i ==> copy@[j]@ == pairs@[j]@,
        decreases pairs@.len() - i,
    {
        copy.push(copy_key_value(&pairs[i]));
        i += 1;
    }
    copy
}

impl Clone for Value {
    fn clone(&self) -> (copy: Self)
        ensures
            copy@ == self@,
    {
        copy_value(self)
    }
}

impl Clone for AnyValue {
    fn clone(&self) -> (copy: Self)
        ensures
            copy@ == self@,
    {
        copy_any_value(self)
    }
}

impl Clone for ArrayValue {
    fn clone(&self) -> (copy: Self)
        ensures
            copy@ == self@,
    {
        ArrayValue { values: copy_any_values(&self.values) }
    }
}

impl Clone for KeyValueList {
    fn clone(&self) -> (copy: Self)
        ensures
            copy@ == self@,
    {
        KeyValueList { values: copy_key_values(&self.values) }
    }
}

impl Clone for KeyValue {
    fn clone(&self) -> (copy: Self)
        ensures
            copy@ == self@,
    {
        copy_key_value(self)
    }
}

impl Clone for InstrumentationScope {
    fn clone(&self) -> (copy: Self)
        ensures
            copy@ == self@,
    {
        InstrumentationScope {
            name: self.name.clone(),
            version: self.version.clone(),
            attributes: copy_key_values(&self.attributes),
            dropped_attributes_count: self.dropped_attributes_count,
        }
    }
}

impl Clone for Resource {
    fn clone(&self) -> (copy: Self)
        ensures
            copy@ == self@,
    {
        Resource {
            attributes: copy_key_values(&self.attributes),
            dropped_attributes_count: self.dropped_attributes_count,
        }
    }
}

impl Clone for LogRecord {
    fn clone(&self) -> (copy: Self)
        ensures
            copy@ == self@,
    {
        LogRecord {
            time_unix_nano: self.time_unix_nano,
            observed_time_unix_nano: self.observed_time_unix_nano,
            severity_number: self.severity_number,
            severity_text: self.severity_text.clone(),
            body: match &self.body {
                Some(v) => Some(copy_any_value(v)),
                None => None,
            },
            attributes: copy_key_values(&self.attributes),
            dropped_attributes_count: self.dropped_attributes_count,
            flags: self.flags,
            trace_id: copy_bytes(&self.trace_id),
            span_id: copy_bytes(&self.span_id),
        }
    }
}

fn copy_records(records: &Vec<LogRecord>) -> (copy: Vec<LogRecord>)
    ensures
        record_views(copy@) == record_views(records@),
{
    let mut copy: Vec<LogRecord> = Vec::new();
    let mut i: usize = 0;
    while i < records.len()
        invariant
            i <= records@.len(),
            copy@.len() == i,
            forall|j: int| 0 <= j < i ==> copy@[j]@ == records@[j]@,
        decreases records@.len() - i,
    {
        copy.push(records[i].clone());
        i += 1;
    }
    copy
}

impl Clone for ScopeLogs {
    fn clone(&self) -> (copy: Self)
        ensures
            copy@ == self@,
    {
        ScopeLogs {
            scope: match &self.scope {
                Some(s) => Some(s.clone()),
                None => None,
            },
            log_records: copy_records(&self.log_records),
            schema_url: self.schema_url.clone(),
        }
    }
}

fn copy_scope_logs(groups: &Vec<ScopeLogs>) -> (copy: Vec<ScopeLogs>)
    ensures
        copy@.map_values(|s: ScopeLogs| s@) == groups@.map_values(|s: ScopeLogs| s@),
{
    let mut copy: Vec<ScopeLogs> = Vec::new();
    let mut i: usize = 0;
    while i < groups.len()
        invariant
            i <= groups@.len(),
            copy@.len() == i,
            forall|j: int| 0 <= j < i ==> copy@[j]@ == groups@[j]@,
        decreases groups@.len() - i,
    {
        copy.push(groups[i].clone());
        i += 1;
    }
    copy
}

impl Clone for ResourceLogs {
    fn clone(&self) -> (copy: Self)
        ensures
            copy@ == self@,
    {
        ResourceLogs {
            resource: match &self.resource {
                Some(r) => Some(r.clone()),
                None => None,
            },
            scope_logs: copy_scope_logs(&self.scope_logs),
            schema_url: self.schema_url.clone(),
        }
    }
}

fn copy_resource_logs(groups: &Vec<ResourceLogs>) -> (copy: Vec<ResourceLogs>)
    ensures
        copy@.map_values(|r: ResourceLogs| r@) == groups@.map_values(|r: ResourceLogs| r@),
{
    let mut copy: Vec<ResourceLogs> = Vec::new();
    let mut i: usize = 0;
    while i < groups.len()
        invariant
            i <= groups@.len(),
            copy@.len() == i,
            forall|j: int| 0 <= j < i ==> copy@[j]@ == groups@[j]@,
        decreases groups@.len() - i,
    {
        copy.push(groups[i].clone());
        i += 1;
    }
    copy
}

impl Clone for LogsData {
    fn clone(&self) -> (copy: Self)
        ensures
            copy@ == self@,
    {
        LogsData { resource_logs: copy_resource_logs(&self.resource_logs) }
    }
}

impl Clone for ExportLogsServiceRequest {
    fn clone(&self) -> (copy: Self)
        ensures
            copy@ == self@,
    {
        ExportLogsServiceRequest { resource_logs: copy_resource_logs(&self.resource_logs) }
    }
}

impl Clone for ExportLogsPartialSuccess {
    fn clone(&self) -> (copy: Self)
        ensures
            copy@ == self@,
    {
        ExportLogsPartialSuccess {
            rejected_log_records: self.rejected_log_records,
            error_message: self.error_message.clone(),
        }
    }
}

impl Clone for ExportLogsServiceResponse {
    fn clone(&self) -> (copy: Self)
        ensures
            copy@ == self@,
    {
        ExportLogsServiceResponse {
            partial_success: match &self.partial_success {
                Some(p) => Some(p.clone()),
                None => None,
            },
        }
    }
}

} // verus!
