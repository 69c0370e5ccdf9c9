use telescope::batch::MAX_BATCH;
use telescope::capture::{capture, Captured, EventMetadata};
use telescope::exporter::ExportEvent;
use telescope::fields::FieldVisitor;
use telescope::level::Level;
use telescope::opentelclient::any_value::Value;
use telescope::opentelclient::{AnyValue, ExportLogsServiceRequest, LogRecord};
use telescope::queue::BoundedQueue;
use telescope::worker::{
    drain, is_flush_due, Action, BatchingWorker, Event, Phase, FLUSH_COUNT, FLUSH_INTERVAL_MS,
    IDLE_SLEEP_MS,
};

fn enqueue(queue: &mut BoundedQueue<LogRecord>, message: &str, nanos: u64) {
    let metadata = EventMetadata { level: Level::Info, file: None, line: None };
    let mut fields = FieldVisitor::new();
    fields.record_debug("message", message.to_string());
    assert_eq!(capture(queue, &metadata, &fields, nanos), Ok(Captured::Enqueued));
}

fn enqueue_many(queue: &mut BoundedQueue<LogRecord>, from: usize, to: usize) {
    for i in from..to {
        enqueue(queue, &format!("r{}", i), i as u64);
    }
}

fn messages(batch: &ExportLogsServiceRequest) -> Vec<String> {
    assert_eq!(batch.resource_logs.len(), 1);
    assert_eq!(batch.resource_logs[0].scope_logs.len(), 1);
    batch.resource_logs[0].scope_logs[0]
        .log_records
        .iter()
        .map(|record| match &record.body {
            Some(AnyValue { value: Some(Value::StringValue(text)) }) => text.clone(),
            other => panic!("unexpected body {:?}", other),
        })
        .collect()
}

fn in_flight_messages(worker: &BatchingWorker) -> Vec<String> {
    messages(worker.in_flight().expect("a batch is in flight"))
}

fn names(from: usize, to: usize) -> Vec<String> {
    (from..to).map(|i| format!("r{}", i)).collect()
}

#[test]
fn the_thresholds_are_the_documented_ones() {
    assert_eq!(FLUSH_COUNT, 100);
    assert_eq!(FLUSH_INTERVAL_MS, 1000);
    assert_eq!(IDLE_SLEEP_MS, 100);
    assert_eq!(MAX_BATCH, 1000);
}

#[test]
fn a_flush_is_due_by_count_or_by_time() {
    assert!(!is_flush_due(0, 0, 0));
    assert!(!is_flush_due(99, 999, 0));
    assert!(is_flush_due(100, 0, 0));
    assert!(is_flush_due(100, 999, 0));
    assert!(is_flush_due(1000, 5, 5));
    assert!(is_flush_due(0, 1000, 0));
    assert!(is_flush_due(99, 1000, 0));
    assert!(is_flush_due(5, 2500, 1500));
    assert!(!is_flush_due(5, 2499, 1500));
    assert!(is_flush_due(0, u64::MAX, 0));
}

#[test]
fn a_clock_that_went_back_counts_as_no_time_passed() {
    assert!(!is_flush_due(0, 10, 5000));
    assert!(!is_flush_due(99, 0, u64::MAX));
    assert!(is_flush_due(100, 10, 5000));
}

#[test]
fn a_new_worker_polls() {
    let worker = BatchingWorker::new("svc".to_string(), 0);
    assert_eq!(worker.phase(), Phase::Polling);
    assert_eq!(worker.buffered(), 0);
    assert!(worker.in_flight().is_none());
}

#[test]
fn a_drain_pass_empties_the_queue_in_order() {
    let mut queue = BoundedQueue::new(10);
    enqueue_many(&mut queue, 0, 4);
    let mut buffer = Vec::new();
    drain(&mut buffer, &mut queue);
    assert!(queue.is_empty());
    assert_eq!(buffer.len(), 4);
    enqueue_many(&mut queue, 4, 6);
    drain(&mut buffer, &mut queue);
    let batch = telescope::batch::make_batch(&"svc".to_string(), buffer);
    assert_eq!(messages(&batch), names(0, 6));
}

#[test]
fn a_drain_pass_stops_at_the_batch_cap() {
    let mut queue = BoundedQueue::new(1500);
    enqueue_many(&mut queue, 0, 1200);
    let mut buffer = Vec::new();
    drain(&mut buffer, &mut queue);
    assert_eq!(buffer.len(), 1000);
    assert_eq!(queue.len(), 200);
    drain(&mut buffer, &mut queue);
    assert_eq!(buffer.len(), 1000);
    assert_eq!(queue.len(), 200);
    let batch = telescope::batch::make_batch(&"svc".to_string(), buffer);
    assert_eq!(messages(&batch), names(0, 1000));
    assert_eq!(queue.try_take().unwrap().time_unix_nano, 1000);
}

#[test]
fn no_batch_exceeds_1000_records() {
    let mut queue = BoundedQueue::new(2500);
    enqueue_many(&mut queue, 0, 2300);
    let mut worker = BatchingWorker::new("svc".to_string(), 0);

    assert_eq!(worker.step(Event::Wake, &mut queue, 1), Action::Export);
    assert_eq!(in_flight_messages(&worker), names(0, 1000));
    assert_eq!(queue.len(), 1300);

    assert_eq!(worker.step(Event::ExportSucceeded, &mut queue, 2), Action::Export);
    assert_eq!(in_flight_messages(&worker), names(1000, 2000));
    assert_eq!(queue.len(), 300);

    assert_eq!(worker.step(Event::ExportSucceeded, &mut queue, 3), Action::Export);
    assert_eq!(in_flight_messages(&worker), names(2000, 2300));
    assert!(queue.is_empty());

    assert_eq!(worker.step(Event::ExportSucceeded, &mut queue, 4), Action::Sleep(100));
    assert!(worker.in_flight().is_none());
}

#[test]
fn the_worker_rests_while_nothing_is_due() {
    let mut queue = BoundedQueue::new(1000);
    let mut worker = BatchingWorker::new("svc".to_string(), 0);
    enqueue_many(&mut queue, 0, 99);
    for now in [0, 100, 200, 900, 999] {
        assert_eq!(worker.step(Event::Wake, &mut queue, now), Action::Sleep(100));
        assert_eq!(worker.phase(), Phase::Polling);
        assert_eq!(worker.buffered(), 99);
        assert!(queue.is_empty());
    }
}

#[test]
fn the_count_threshold_fires_at_100_records() {
    let mut queue = BoundedQueue::new(1000);
    let mut worker = BatchingWorker::new("svc".to_string(), 0);
    enqueue_many(&mut queue, 0, 99);
    assert_eq!(worker.step(Event::Wake, &mut queue, 1), Action::Sleep(100));
    enqueue_many(&mut queue, 99, 100);
    assert_eq!(worker.step(Event::Wake, &mut queue, 2), Action::Export);
    assert_eq!(worker.phase(), Phase::Flushing);
    assert_eq!(worker.buffered(), 0);
    assert_eq!(in_flight_messages(&worker), names(0, 100));
}

#[test]
fn the_time_threshold_fires_at_1000_ms() {
    let mut queue = BoundedQueue::new(1000);
    let mut worker = BatchingWorker::new("svc".to_string(), 500);
    enqueue_many(&mut queue, 0, 1);
    assert_eq!(worker.step(Event::Wake, &mut queue, 1499), Action::Sleep(100));
    assert_eq!(worker.step(Event::Wake, &mut queue, 1500), Action::Export);
    assert_eq!(in_flight_messages(&worker), names(0, 1));
}

#[test]
fn burst_of_150_flushes_100_by_count_then_50_by_time() {
    let mut queue = BoundedQueue::with_default_capacity();
    let mut worker = BatchingWorker::new("svc".to_string(), 0);

    enqueue_many(&mut queue, 0, 100);
    assert_eq!(worker.step(Event::Wake, &mut queue, 5), Action::Export);
    assert_eq!(in_flight_messages(&worker), names(0, 100));
    assert_eq!(in_flight_messages(&worker).len(), 100);

    enqueue_many(&mut queue, 100, 150);
    assert_eq!(worker.step(Event::ExportSucceeded, &mut queue, 10), Action::Sleep(100));
    assert_eq!(worker.buffered(), 50);
    assert!(worker.in_flight().is_none());

    let mut now = 10;
    let mut flushes = 0;
    while flushes == 0 {
        now += 100;
        match worker.step(Event::Wake, &mut queue, now) {
            Action::Sleep(ms) => {
                assert_eq!(ms, 100);
                assert!(now < 1010);
                assert_eq!(worker.buffered(), 50);
            },
            Action::Export => flushes += 1,
            Action::Exit => panic!("the worker stopped"),
        }
    }
    assert_eq!(now, 1010);
    assert_eq!(in_flight_messages(&worker), names(100, 150));
    assert_eq!(in_flight_messages(&worker).len(), 50);
}

#[test]
fn five_records_flush_once_after_1000_ms() {
    let mut queue = BoundedQueue::with_default_capacity();
    let mut worker = BatchingWorker::new("svc".to_string(), 0);
    enqueue_many(&mut queue, 0, 5);

    let mut batches: Vec<Vec<String>> = Vec::new();
    let mut now = 0;
    let mut event = Event::Wake;
    while now <= 1000 {
        match worker.step(event, &mut queue, now) {
            Action::Sleep(ms) => {
                now += ms;
                event = Event::Wake;
            },
            Action::Export => {
                batches.push(in_flight_messages(&worker));
                event = Event::ExportSucceeded;
            },
            Action::Exit => panic!("the worker stopped"),
        }
    }
    assert_eq!(batches, vec![names(0, 5)]);
    assert_eq!(worker.buffered(), 0);
    assert!(queue.is_empty());
}

#[test]
fn draining_resumes_only_after_the_third_call_succeeds() {
    let mut queue = BoundedQueue::with_default_capacity();
    let mut worker = BatchingWorker::new("svc".to_string(), 0);
    enqueue_many(&mut queue, 0, 100);
    assert_eq!(worker.step(Event::Wake, &mut queue, 0), Action::Export);
    let first_attempt = in_flight_messages(&worker);

    enqueue_many(&mut queue, 100, 130);
    let mut delay = 0;
    let mut now = 1;

    for _ in 0..2 {
        match worker.step(Event::ExportFailed, &mut queue, now) {
            Action::Sleep(ms) => {
                delay += ms;
                now += ms;
            },
            other => panic!("unexpected action {:?}", other),
        }
        assert_eq!(worker.phase(), Phase::Backoff);
        assert_eq!(queue.len(), 30);
        assert_eq!(worker.buffered(), 0);
        assert_eq!(worker.step(Event::Wake, &mut queue, now), Action::Export);
        assert_eq!(worker.phase(), Phase::Flushing);
        assert_eq!(in_flight_messages(&worker), first_attempt);
        assert_eq!(queue.len(), 30);
        assert_eq!(worker.buffered(), 0);
    }
    assert_eq!(delay, 2000);

    assert_eq!(worker.step(Event::ExportSucceeded, &mut queue, now), Action::Sleep(100));
    assert_eq!(worker.phase(), Phase::Polling);
    assert!(worker.in_flight().is_none());
    assert!(queue.is_empty());
    assert_eq!(worker.buffered(), 30);
}

#[test]
fn the_flush_clock_restarts_at_the_success_not_at_the_flush() {
    let mut queue = BoundedQueue::with_default_capacity();
    let mut worker = BatchingWorker::new("svc".to_string(), 0);
    assert_eq!(worker.step(Event::Wake, &mut queue, 1000), Action::Export);
    assert_eq!(worker.step(Event::ExportFailed, &mut queue, 1010), Action::Sleep(1000));
    assert_eq!(worker.step(Event::Wake, &mut queue, 2010), Action::Export);
    assert_eq!(worker.step(Event::ExportSucceeded, &mut queue, 2500), Action::Sleep(100));
    enqueue_many(&mut queue, 0, 1);
    assert_eq!(worker.step(Event::Wake, &mut queue, 3499), Action::Sleep(100));
    assert_eq!(worker.step(Event::Wake, &mut queue, 3500), Action::Export);
    assert_eq!(in_flight_messages(&worker), names(0, 1));
}

#[test]
fn an_empty_batch_is_flushed_when_the_time_is_up() {
    let mut queue: BoundedQueue<LogRecord> = BoundedQueue::with_default_capacity();
    let mut worker = BatchingWorker::new("svc".to_string(), 0);
    assert_eq!(worker.step(Event::Wake, &mut queue, 999), Action::Sleep(100));
    assert_eq!(worker.step(Event::Wake, &mut queue, 1099), Action::Export);
    assert_eq!(in_flight_messages(&worker), Vec::<String>::new());
}

#[test]
fn records_keep_their_capture_order_within_their_batch() {
    let mut queue = BoundedQueue::with_default_capacity();
    let mut worker = BatchingWorker::new("svc".to_string(), 0);
    enqueue(&mut queue, "R1", 1);
    assert_eq!(worker.step(Event::Wake, &mut queue, 10), Action::Sleep(100));
    enqueue(&mut queue, "R2", 2);
    enqueue(&mut queue, "R3", 3);
    assert_eq!(worker.step(Event::Wake, &mut queue, 1000), Action::Export);
    assert_eq!(in_flight_messages(&worker), vec!["R1", "R2", "R3"]);
}

#[test]
fn a_success_right_after_a_large_burst_flushes_at_once() {
    let mut queue = BoundedQueue::with_default_capacity();
    let mut worker = BatchingWorker::new("svc".to_string(), 0);
    enqueue_many(&mut queue, 0, 100);
    assert_eq!(worker.step(Event::Wake, &mut queue, 0), Action::Export);
    enqueue_many(&mut queue, 100, 250);
    assert_eq!(worker.step(Event::ExportSucceeded, &mut queue, 1), Action::Export);
    assert_eq!(in_flight_messages(&worker), names(100, 250));
}

#[test]
fn reports_out_of_turn_change_nothing() {
    let mut queue = BoundedQueue::with_default_capacity();
    let mut worker = BatchingWorker::new("svc".to_string(), 0);
    enqueue_many(&mut queue, 0, 3);
    assert_eq!(worker.step(Event::ExportSucceeded, &mut queue, 5000), Action::Sleep(100));
    assert_eq!(worker.step(Event::ExportFailed, &mut queue, 5000), Action::Sleep(100));
    assert_eq!(worker.phase(), Phase::Polling);
    assert_eq!(queue.len(), 3);
    assert_eq!(worker.buffered(), 0);

    assert_eq!(worker.step(Event::Wake, &mut queue, 5000), Action::Export);
    assert_eq!(worker.step(Event::Wake, &mut queue, 5001), Action::Export);
    assert_eq!(worker.phase(), Phase::Flushing);
    assert_eq!(worker.step(Event::ExportFailed, &mut queue, 5002), Action::Sleep(1000));
    assert_eq!(worker.step(Event::ExportSucceeded, &mut queue, 5003), Action::Sleep(1000));
    assert_eq!(worker.step(Event::ExportFailed, &mut queue, 5004), Action::Sleep(1000));
    assert_eq!(worker.phase(), Phase::Backoff);
    assert_eq!(in_flight_messages(&worker), names(0, 3));
}

#[test]
fn shutdown_with_an_empty_buffer_stops_at_once() {
    let mut queue = BoundedQueue::with_default_capacity();
    let mut worker = BatchingWorker::new("svc".to_string(), 0);
    enqueue_many(&mut queue, 0, 2);
    assert_eq!(worker.step(Event::Shutdown, &mut queue, 10), Action::Exit);
    assert_eq!(worker.phase(), Phase::Stopped);
    assert_eq!(queue.len(), 2);
    assert_eq!(worker.step(Event::Wake, &mut queue, 5000), Action::Exit);
    assert_eq!(worker.step(Event::ExportSucceeded, &mut queue, 5000), Action::Exit);
    assert_eq!(queue.len(), 2);
}

#[test]
fn shutdown_flushes_the_buffer_exactly_once() {
    let mut queue = BoundedQueue::with_default_capacity();
    let mut worker = BatchingWorker::new("svc".to_string(), 0);
    enqueue_many(&mut queue, 0, 7);
    assert_eq!(worker.step(Event::Wake, &mut queue, 10), Action::Sleep(100));
    enqueue_many(&mut queue, 7, 9);

    assert_eq!(worker.step(Event::Shutdown, &mut queue, 110), Action::Export);
    assert_eq!(in_flight_messages(&worker), names(0, 7));
    assert_eq!(queue.len(), 2);
    assert_eq!(worker.step(Event::ExportSucceeded, &mut queue, 120), Action::Exit);
    assert_eq!(worker.phase(), Phase::Stopped);
    assert!(worker.in_flight().is_none());
    assert_eq!(queue.len(), 2);
    assert_eq!(worker.step(Event::Wake, &mut queue, 5000), Action::Exit);
    assert_eq!(worker.step(Event::Shutdown, &mut queue, 5000), Action::Exit);
}

#[test]
fn shutdown_during_the_retry_delay_makes_one_last_attempt() {
    let mut queue = BoundedQueue::with_default_capacity();
    let mut worker = BatchingWorker::new("svc".to_string(), 0);
    enqueue_many(&mut queue, 0, 100);
    assert_eq!(worker.step(Event::Wake, &mut queue, 0), Action::Export);
    assert_eq!(worker.step(Event::ExportFailed, &mut queue, 1), Action::Sleep(1000));
    assert_eq!(worker.step(Event::Shutdown, &mut queue, 2), Action::Export);
    assert_eq!(in_flight_messages(&worker), names(0, 100));
    assert_eq!(worker.step(Event::ExportFailed, &mut queue, 3), Action::Exit);
    assert_eq!(worker.phase(), Phase::Stopped);
    assert_eq!(in_flight_messages(&worker), names(0, 100));
}

#[test]
fn export_events_map_to_worker_events() {
    assert_eq!(Event::from_export(ExportEvent::Succeeded), Event::ExportSucceeded);
    assert_eq!(Event::from_export(ExportEvent::Failed), Event::ExportFailed);
    assert_eq!(Event::from_export(ExportEvent::DelayElapsed), Event::Wake);
}

#[test]
fn the_batch_names_the_service() {
    let mut queue = BoundedQueue::with_default_capacity();
    let mut worker = BatchingWorker::new("checkout".to_string(), 0);
    enqueue_many(&mut queue, 0, 1);
    assert_eq!(worker.step(Event::Wake, &mut queue, 1000), Action::Export);
    let batch = worker.in_flight().unwrap();
    let resource = batch.resource_logs[0].resource.as_ref().unwrap();
    assert_eq!(resource.attributes.len(), 1);
    assert_eq!(resource.attributes[0].key, "service.name");
    assert_eq!(
        resource.attributes[0].value,
        Some(AnyValue { value: Some(Value::StringValue("checkout".to_string())) })
    );
    assert!(batch.resource_logs[0].scope_logs[0].scope.is_none());
}

#[test]
fn a_burst_queued_before_the_poll_goes_out_as_one_batch() {
    let mut queue = BoundedQueue::with_default_capacity();
    let mut worker = BatchingWorker::new("svc".to_string(), 0);
    enqueue_many(&mut queue, 0, 150);
    assert_eq!(worker.step(Event::Wake, &mut queue, 10), Action::Export);
    assert_eq!(in_flight_messages(&worker), names(0, 150));
    assert!(queue.is_empty());
}

#[test]
fn flushes_by_time_alone_are_at_least_1000_ms_apart() {
    let mut queue = BoundedQueue::with_default_capacity();
    let mut worker = BatchingWorker::new("svc".to_string(), 0);
    let mut flush_times = Vec::new();
    let mut now = 0;
    let mut event = Event::Wake;
    let mut next_record = 0;
    while now < 10_000 {
        if now % 700 == 0 {
            enqueue_many(&mut queue, next_record, next_record + 3);
            next_record += 3;
        }
        match worker.step(event, &mut queue, now) {
            Action::Sleep(ms) => {
                now += ms;
                event = Event::Wake;
            },
            Action::Export => {
                assert!(in_flight_messages(&worker).len() < 100);
                flush_times.push(now);
                now += 30;
                event = Event::ExportSucceeded;
            },
            Action::Exit => panic!("the worker stopped"),
        }
    }
    assert!(flush_times.len() >= 8);
    for pair in flush_times.windows(2) {
        assert!(pair[1] - pair[0] >= 1000, "flushes at {} and {}", pair[0], pair[1]);
    }
    assert_eq!(flush_times[0], 1000);
}
