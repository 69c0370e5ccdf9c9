use telescope::batch::{make_batch, make_resource, MAX_BATCH};
use telescope::capture::EventMetadata;
use telescope::exporter::{
    classify, ExportAction, ExportEvent, ExportFailure, ExportState, Exporter, RETRY_DELAY_MS,
};
use telescope::fields::FieldVisitor;
use telescope::level::Level;
use telescope::opentelclient::any_value::Value;
use telescope::opentelclient::{
    AnyValue, ArrayValue, ExportLogsPartialSuccess, ExportLogsServiceRequest,
    ExportLogsServiceResponse, KeyValue, KeyValueList, LogRecord, Resource, ResourceLogs,
    ScopeLogs,
};

fn record(message: &str, nanos: u64) -> LogRecord {
    let metadata = EventMetadata { level: Level::Info, file: None, line: None };
    let mut fields = FieldVisitor::new();
    fields.record_debug("message", message.to_string());
    LogRecord::from_event(&metadata, &fields, nanos).unwrap()
}

fn records(count: usize) -> Vec<LogRecord> {
    (0..count).map(|i| record(&format!("r{}", i), i as u64)).collect()
}

fn expected_batch(service: &str, log_records: Vec<LogRecord>) -> ExportLogsServiceRequest {
    ExportLogsServiceRequest {
        resource_logs: vec![ResourceLogs {
            resource: Some(Resource {
                attributes: vec![KeyValue {
                    key: "service.name".to_string(),
                    value: Some(AnyValue {
                        value: Some(Value::StringValue(service.to_string())),
                    }),
                }],
                dropped_attributes_count: 0,
            }),
            scope_logs: vec![ScopeLogs { scope: None, log_records, schema_url: String::new() }],
            schema_url: String::new(),
        }],
    }
}

#[test]
fn the_batch_cap_is_1000() {
    assert_eq!(MAX_BATCH, 1000);
}

#[test]
fn the_resource_names_the_service() {
    let resource = make_resource(&"checkout".to_string());
    assert_eq!(
        resource,
        Resource {
            attributes: vec![KeyValue {
                key: "service.name".to_string(),
                value: Some(AnyValue { value: Some(Value::StringValue("checkout".to_string())) }),
            }],
            dropped_attributes_count: 0,
        }
    );
}

#[test]
fn a_batch_wraps_its_records_once() {
    let batch = make_batch(&"checkout".to_string(), records(3));
    assert_eq!(batch, expected_batch("checkout", records(3)));
    assert_eq!(batch.resource_logs.len(), 1);
    assert_eq!(batch.resource_logs[0].scope_logs.len(), 1);
    let shipped = &batch.resource_logs[0].scope_logs[0].log_records;
    assert_eq!(shipped.len(), 3);
    assert_eq!(shipped[0], record("r0", 0));
    assert_eq!(shipped[1], record("r1", 1));
    assert_eq!(shipped[2], record("r2", 2));
}

#[test]
fn an_empty_batch_still_carries_the_resource() {
    let batch = make_batch(&"svc".to_string(), Vec::new());
    assert_eq!(batch, expected_batch("svc", Vec::new()));
}

#[test]
fn the_retry_delay_is_one_second() {
    assert_eq!(RETRY_DELAY_MS, 1000);
}

#[test]
fn a_new_exporter_is_about_to_send() {
    let exporter = Exporter::new(make_batch(&"svc".to_string(), records(2)));
    assert_eq!(exporter.state(), ExportState::Sending);
    assert_eq!(exporter.batch(), &expected_batch("svc", records(2)));
}

#[test]
fn a_success_delivers_the_batch() {
    let mut exporter = Exporter::new(make_batch(&"svc".to_string(), records(2)));
    assert_eq!(exporter.on_event(ExportEvent::Succeeded), ExportAction::Finish);
    assert_eq!(exporter.state(), ExportState::Delivered);
    assert_eq!(exporter.on_event(ExportEvent::Failed), ExportAction::Finish);
    assert_eq!(exporter.on_event(ExportEvent::DelayElapsed), ExportAction::Finish);
    assert_eq!(exporter.on_event(ExportEvent::Succeeded), ExportAction::Finish);
    assert_eq!(exporter.state(), ExportState::Delivered);
}

#[test]
fn a_failure_is_followed_by_a_fixed_delay_and_a_new_attempt() {
    let mut exporter = Exporter::new(make_batch(&"svc".to_string(), records(2)));
    for _ in 0..50 {
        assert_eq!(exporter.on_event(ExportEvent::Failed), ExportAction::Wait(1000));
        assert_eq!(exporter.state(), ExportState::Waiting);
        assert_eq!(exporter.on_event(ExportEvent::DelayElapsed), ExportAction::Send);
        assert_eq!(exporter.state(), ExportState::Sending);
    }
    assert_eq!(exporter.on_event(ExportEvent::Succeeded), ExportAction::Finish);
}

#[test]
fn the_batch_is_the_same_on_every_attempt() {
    let mut exporter = Exporter::new(make_batch(&"svc".to_string(), records(5)));
    let first = expected_batch("svc", records(5));
    assert_eq!(exporter.batch(), &first);
    for _ in 0..7 {
        assert_eq!(exporter.on_event(ExportEvent::Failed), ExportAction::Wait(RETRY_DELAY_MS));
        assert_eq!(exporter.batch(), &first);
        assert_eq!(exporter.on_event(ExportEvent::DelayElapsed), ExportAction::Send);
        assert_eq!(exporter.batch(), &first);
    }
    assert_eq!(exporter.on_event(ExportEvent::Succeeded), ExportAction::Finish);
    assert_eq!(exporter.batch(), &first);
    assert_eq!(exporter.into_batch(), first);
}

#[test]
fn events_out_of_turn_change_nothing() {
    let mut exporter = Exporter::new(make_batch(&"svc".to_string(), records(1)));
    assert_eq!(exporter.on_event(ExportEvent::DelayElapsed), ExportAction::Send);
    assert_eq!(exporter.state(), ExportState::Sending);
    assert_eq!(exporter.on_event(ExportEvent::Failed), ExportAction::Wait(1000));
    assert_eq!(exporter.on_event(ExportEvent::Failed), ExportAction::Wait(1000));
    assert_eq!(exporter.on_event(ExportEvent::Succeeded), ExportAction::Wait(1000));
    assert_eq!(exporter.state(), ExportState::Waiting);
    assert_eq!(exporter.batch(), &expected_batch("svc", records(1)));
}

#[test]
fn any_answer_is_a_success_and_any_error_a_failure() {
    let accepted = Ok(ExportLogsServiceResponse { partial_success: None });
    assert_eq!(classify(&accepted), ExportEvent::Succeeded);
    let partly = Ok(ExportLogsServiceResponse {
        partial_success: Some(ExportLogsPartialSuccess {
            rejected_log_records: 3,
            error_message: "quota".to_string(),
        }),
    });
    assert_eq!(classify(&partly), ExportEvent::Succeeded);
    let unavailable = Err(ExportFailure { code: 14, message: "unavailable".to_string() });
    assert_eq!(classify(&unavailable), ExportEvent::Failed);
    let timeout = Err(ExportFailure { code: 4, message: String::new() });
    assert_eq!(classify(&timeout), ExportEvent::Failed);
}

#[test]
fn a_copy_of_a_batch_equals_the_batch() {
    let batch = make_batch(&"svc".to_string(), records(3));
    let copy = batch.clone();
    assert_eq!(copy, batch);
    assert_eq!(copy, expected_batch("svc", records(3)));
}

#[test]
fn a_copy_keeps_nested_values() {
    let nested = LogRecord {
        time_unix_nano: 1,
        observed_time_unix_nano: 2,
        severity_number: 9,
        severity_text: "INFO".to_string(),
        body: Some(AnyValue {
            value: Some(Value::ArrayValue(ArrayValue {
                values: vec![
                    AnyValue { value: Some(Value::BoolValue(true)) },
                    AnyValue { value: Some(Value::IntValue(-7)) },
                    AnyValue { value: Some(Value::DoubleValue(1.5f64.to_bits())) },
                    AnyValue { value: Some(Value::BytesValue(vec![0, 255, 16])) },
                    AnyValue { value: None },
                    AnyValue {
                        value: Some(Value::KvlistValue(KeyValueList {
                            values: vec![KeyValue {
                                key: "k".to_string(),
                                value: Some(AnyValue {
                                    value: Some(Value::StringValue("v".to_string())),
                                }),
                            }],
                        })),
                    },
                ],
            })),
        }),
        attributes: vec![KeyValue { key: "empty".to_string(), value: None }],
        dropped_attributes_count: 3,
        flags: 255,
        trace_id: vec![1; 16],
        span_id: vec![2; 8],
    };
    let copy = nested.clone();
    assert_eq!(copy, nested);
    assert_eq!(copy.trace_id, vec![1; 16]);
    assert_eq!(copy.attributes[0].key, "empty");
}
