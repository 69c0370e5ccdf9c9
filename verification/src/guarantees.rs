//! What holds of the worker and of the pipeline whatever they are fed:
//! theorems about `WorkerModel::step`, which `BatchingWorker::step`
//! implements, about runs of steps, and about the queue and the worker
//! together.

use vstd::prelude::*;
use crate::opentelclient::{record_views, LogRecord, LogRecordView};
use crate::worker::{
    drain_count, flush_due, Action, Event, Phase, WorkerModel, FLUSH_COUNT, FLUSH_INTERVAL_MS,
    IDLE_SLEEP_MS,
};

verus! {

/// Whether the step of `worker` on `event` is a poll: a drain pass and a
/// decision. It is one on a wake with no batch in flight, and on the success
/// of an export call unless shutdown was asked for.
pub open spec fn polls(worker: WorkerModel, event: Event) -> bool {
    match worker.phase() {
        Phase::Polling => event == Event::Wake && !worker.stopping,
        Phase::Flushing => event == Event::ExportSucceeded && !worker.stopping,
        _ => false,
    }
}

/// Whether the step of `worker` on `event` ends the export of the batch in
/// flight with a success.
pub open spec fn delivers(worker: WorkerModel, event: Event) -> bool {
    worker.phase() == Phase::Flushing && event == Event::ExportSucceeded
}

/// The time from which the flush interval counts on a step on `event` at
/// `now_ms`: the time of the last successful export, which is now if the
/// step itself reports one.
pub open spec fn interval_start(worker: WorkerModel, event: Event, now_ms: nat) -> nat {
    if delivers(worker, event) {
        now_ms
    } else {
        worker.last_flush_ms
    }
}

/// Every step keeps the worker well formed. In particular no step makes
/// the buffer or the batch in flight larger than `MAX_BATCH`: no batch ever
/// exceeds that many records.
pub proof fn lemma_step_keeps_wf(
    worker: WorkerModel,
    event: Event,
    queue: Seq<LogRecord>,
    now_ms: nat,
)
    requires
        worker.wf(),
    ensures
        worker.step(event, queue, now_ms).0.wf(),
{
}

/// A poll makes a batch if and only if a batch is due: the buffer, after
/// the drain pass, holds at least `FLUSH_COUNT` records, or at least
/// `FLUSH_INTERVAL_MS` milliseconds have passed since the last successful
/// export. The batch then holds the whole buffer, and its export is asked
/// for at once.
pub proof fn lemma_flush_iff_due(
    worker: WorkerModel,
    event: Event,
    queue: Seq<LogRecord>,
    now_ms: nat,
)
    requires
        worker.wf(),
        polls(worker, event),
    ensures
        ({
            let (after, rest, action) = worker.step(event, queue, now_ms);
            let buffered = worker.buffer.len() + drain_count(worker.buffer.len(), queue.len());
            let due = flush_due(buffered, now_ms, interval_start(worker, event, now_ms));
            &&& after.in_flight is Some <==> due
            &&& action == Action::Export <==> due
            &&& due ==> after.in_flight.unwrap().records.len() == buffered && after.buffer.len()
                == 0
            &&& !due ==> after.buffer.len() == buffered
        }),
{
}

/// A step that is neither a poll nor a shutdown makes no batch: what is in
/// flight afterwards was in flight before.
pub proof fn lemma_no_flush_without_poll(
    worker: WorkerModel,
    event: Event,
    queue: Seq<LogRecord>,
    now_ms: nat,
)
    requires
        !polls(worker, event),
        event != Event::Shutdown,
    ensures
        ({
            let (after, rest, action) = worker.step(event, queue, now_ms);
            &&& after.buffer == worker.buffer
            &&& rest == queue
            &&& after.in_flight matches Some(flight) ==> worker.in_flight matches Some(before)
                && before.records == flight.records
        }),
{
}

/// A batch that a poll makes of fewer than `FLUSH_COUNT` records is made
/// because of time alone, and then at least `FLUSH_INTERVAL_MS` milliseconds
/// lie between the last successful export and this flush.
pub proof fn lemma_flush_by_time_is_spaced(
    worker: WorkerModel,
    event: Event,
    queue: Seq<LogRecord>,
    now_ms: nat,
)
    requires
        worker.wf(),
        polls(worker, event),
        worker.step(event, queue, now_ms).0.in_flight is Some,
        worker.step(event, queue, now_ms).0.in_flight.unwrap().records.len() < FLUSH_COUNT,
    ensures
        event == Event::Wake,
        now_ms >= worker.last_flush_ms + FLUSH_INTERVAL_MS,
{
}

/// The time of the last flush moves only when an export call succeeds, and
/// then to the time of that success.
pub proof fn lemma_last_flush_is_last_success(
    worker: WorkerModel,
    event: Event,
    queue: Seq<LogRecord>,
    now_ms: nat,
)
    ensures
        worker.step(event, queue, now_ms).0.last_flush_ms == interval_start(
            worker,
            event,
            now_ms,
        ),
{
}

/// No step adds, drops, doubles or reorders a record. The records that the
/// worker holds, followed by those still queued, are after the step what
/// they were before it, but for the batch that a success delivers.
pub proof fn lemma_step_keeps_order(
    worker: WorkerModel,
    event: Event,
    queue: Seq<LogRecord>,
    now_ms: nat,
)
    requires
        worker.wf(),
    ensures
        ({
            let (after, rest, action) = worker.step(event, queue, now_ms);
            let before = if delivers(worker, event) {
                worker.buffer
            } else {
                worker.held()
            };
            after.held() + record_views(rest) == before + record_views(queue)
        }),
{
    let (after, rest, action) = worker.step(event, queue, now_ms);
    let count = drain_count(worker.buffer.len(), queue.len()) as int;
    assert(record_views(queue) =~= record_views(queue.take(count)) + record_views(
        queue.skip(count),
    ));
    let before = if delivers(worker, event) {
        worker.buffer
    } else {
        worker.held()
    };
    assert(after.held() + record_views(rest) =~= before + record_views(queue));
}

/// Records that are queued in some order and reach a batch together are in
/// that order in the batch: the batch that a poll makes is the buffer
/// followed by the drained front of the queue.
pub proof fn lemma_batch_keeps_capture_order(
    worker: WorkerModel,
    queue: Seq<LogRecord>,
    now_ms: nat,
    i: int,
    j: int,
)
    requires
        worker.wf(),
        polls(worker, Event::Wake),
        worker.step(Event::Wake, queue, now_ms).0.in_flight is Some,
        0 <= i <= j < drain_count(worker.buffer.len(), queue.len()),
    ensures
        ({
            let records = worker.step(Event::Wake, queue, now_ms).0.in_flight.unwrap().records;
            &&& records.len() == worker.buffer.len() + drain_count(
                worker.buffer.len(),
                queue.len(),
            )
            &&& records[worker.buffer.len() + i] == queue[i]@
            &&& records[worker.buffer.len() + j] == queue[j]@
        }),
{
}

/// Until an export call succeeds, the batch in flight stays what it is:
/// every retry ships the records of the first attempt, in the same order
/// and under the same resource.
pub proof fn lemma_retry_keeps_batch(
    worker: WorkerModel,
    event: Event,
    queue: Seq<LogRecord>,
    now_ms: nat,
)
    requires
        worker.in_flight is Some,
        !delivers(worker, event),
    ensures
        worker.step(event, queue, now_ms).0.batch() == worker.batch(),
{
}

/// The worker goes back to polling only on a success: while a batch is in
/// flight, no other event takes a record from the queue or from the buffer.
pub proof fn lemma_export_is_serial(
    worker: WorkerModel,
    event: Event,
    queue: Seq<LogRecord>,
    now_ms: nat,
)
    requires
        worker.in_flight is Some,
        !delivers(worker, event),
    ensures
        ({
            let (after, rest, action) = worker.step(event, queue, now_ms);
            &&& rest == queue
            &&& after.buffer == worker.buffer
            &&& after.in_flight is Some
            &&& action != Action::Sleep(IDLE_SLEEP_MS)
        }),
{
}

/// After shutdown the worker makes at most one more batch and takes
/// nothing more from the queue.
pub proof fn lemma_shutdown_drains_nothing(
    worker: WorkerModel,
    event: Event,
    queue: Seq<LogRecord>,
    now_ms: nat,
)
    requires
        worker.stopping || event == Event::Shutdown,
    ensures
        ({
            let (after, rest, action) = worker.step(event, queue, now_ms);
            &&& rest == queue
            &&& after.stopping || after.stopped
            &&& after.held() == worker.held() || (delivers(worker, event) && after.held()
                == worker.buffer)
        }),
{
    let (after, rest, action) = worker.step(event, queue, now_ms);
    if !worker.stopped && worker.in_flight is None && event == Event::Shutdown
        && worker.buffer.len() > 0 {
        assert(after.held() =~= worker.held());
    }
}

/// What the worker is fed at one step: the event, the queue as the
/// producers have left it by then, and the time.
pub ghost struct Input {
    pub event: Event,
    pub queue: Seq<LogRecord>,
    pub now_ms: nat,
}

/// The worker after the given inputs, in order.
pub open spec fn run(worker: WorkerModel, inputs: Seq<Input>) -> WorkerModel
    decreases inputs.len(),
{
    if inputs.len() == 0 {
        worker
    } else {
        let last = inputs.last();
        run(worker, inputs.drop_last()).step(last.event, last.queue, last.now_ms).0
    }
}

/// Whether the step of `worker` on `input` is a poll that makes a batch.
pub open spec fn flushes(worker: WorkerModel, input: Input) -> bool {
    &&& polls(worker, input.event)
    &&& worker.step(input.event, input.queue, input.now_ms).0.in_flight is Some
}

/// Whether the clock never goes back from one input to the next.
pub open spec fn clock_is_monotonic(inputs: Seq<Input>) -> bool {
    forall|i: int, j: int| 0 <= i <= j < inputs.len() ==> inputs[i].now_ms <= inputs[j].now_ms
}

/// Every run keeps the worker well formed.
pub proof fn lemma_run_keeps_wf(worker: WorkerModel, inputs: Seq<Input>)
    requires
        worker.wf(),
    ensures
        run(worker, inputs).wf(),
    decreases inputs.len(),
{
    if inputs.len() > 0 {
        lemma_run_keeps_wf(worker, inputs.drop_last());
    }
}

/// However many export calls fail, and whatever else happens meanwhile
/// short of a success, the batch in flight stays what it was at the first
/// attempt, and the worker drains and buffers nothing.
pub proof fn lemma_batch_survives_failures(worker: WorkerModel, inputs: Seq<Input>)
    requires
        worker.in_flight is Some,
        forall|i: int| 0 <= i < inputs.len() ==> inputs[i].event != Event::ExportSucceeded,
    ensures
        run(worker, inputs).in_flight is Some,
        run(worker, inputs).batch() == worker.batch(),
        run(worker, inputs).buffer == worker.buffer,
    decreases inputs.len(),
{
    if inputs.len() > 0 {
        let earlier = inputs.drop_last();
        assert forall|i: int| 0 <= i < earlier.len() implies earlier[i].event
            != Event::ExportSucceeded by {
            assert(earlier[i] == inputs[i]);
        }
        lemma_batch_survives_failures(worker, earlier);
    }
}

/// Two flushes in a row of which the second is due to time alone are at
/// least `FLUSH_INTERVAL_MS` milliseconds apart.
///
/// The first input makes a batch; no later input but the last does; the
/// last makes one of fewer than `FLUSH_COUNT` records. Then, on a clock
/// that never goes back, the last input comes at least the flush interval
/// after the first.
pub proof fn lemma_time_flushes_are_spaced(worker: WorkerModel, inputs: Seq<Input>)
    requires
        worker.wf(),
        inputs.len() >= 2,
        clock_is_monotonic(inputs),
        flushes(worker, inputs.first()),
        forall|k: int|
            1 <= k < inputs.len() - 1 ==> !flushes(run(worker, inputs.take(k)), inputs[k]),
        flushes(run(worker, inputs.drop_last()), inputs.last()),
        run(worker, inputs).in_flight.unwrap().records.len() < FLUSH_COUNT,
    ensures
        inputs.last().now_ms >= inputs.first().now_ms + FLUSH_INTERVAL_MS,
{
    lemma_no_flush_keeps_clock(worker, inputs, inputs.len() - 1);
    let before = run(worker, inputs.drop_last());
    assert(inputs.take(inputs.len() - 1) =~= inputs.drop_last());
    lemma_run_keeps_wf(worker, inputs.drop_last());
    let last = inputs.last();
    lemma_flush_by_time_is_spaced(before, last.event, last.queue, last.now_ms);
}

/// After a flush, and until the next poll that makes a batch, either a
/// batch is in flight or the last successful export is no older than that
/// flush.
proof fn lemma_no_flush_keeps_clock(worker: WorkerModel, inputs: Seq<Input>, upto: int)
    requires
        worker.wf(),
        1 <= upto <= inputs.len(),
        clock_is_monotonic(inputs),
        flushes(worker, inputs.first()),
        forall|k: int| 1 <= k < upto ==> !flushes(run(worker, inputs.take(k)), inputs[k]),
    ensures
        ({
            let reached = run(worker, inputs.take(upto));
            reached.in_flight is Some || reached.stopped || reached.last_flush_ms
                >= inputs.first().now_ms
        }),
    decreases upto,
{
    let prefix = inputs.take(upto);
    assert(prefix.drop_last() =~= inputs.take(upto - 1));
    if upto == 1 {
        assert(inputs.take(0) =~= Seq::<Input>::empty());
    } else {
        lemma_no_flush_keeps_clock(worker, inputs, upto - 1);
        lemma_run_keeps_wf(worker, inputs.take(upto - 1));
    }
}

/// The pipeline as a whole: the queue, the worker, and a ledger of what
/// went in and what was delivered.
pub ghost struct Pipeline {
    /// The most records that the queue holds.
    pub capacity: nat,
    /// The queue, oldest record first.
    pub queue: Seq<LogRecord>,
    /// The worker.
    pub worker: WorkerModel,
    /// Every record that was ever enqueued, in the order of capture.
    pub captured: Seq<LogRecordView>,
    /// Every record of every batch whose export succeeded, in the order of
    /// export.
    pub delivered: Seq<LogRecordView>,
}

/// One move of the pipeline.
pub ghost enum Move {
    /// A producer captures an event that yields `record`.
    Capture { record: LogRecord },
    /// The worker takes a step.
    Work { event: Event, now_ms: nat },
}

impl Pipeline {
    /// A pipeline that has seen no event yet.
    pub open spec fn start(capacity: nat, service_name: Seq<char>, now_ms: nat) -> Pipeline {
        Pipeline {
            capacity,
            queue: Seq::empty(),
            worker: WorkerModel::start(service_name, now_ms),
            captured: Seq::empty(),
            delivered: Seq::empty(),
        }
    }

    /// The pipeline after one move. A capture enqueues its record if the
    /// queue has room, and is put off otherwise. A step of the worker is
    /// `WorkerModel::step`; the batch that the step delivers, if any, is
    /// entered in the ledger.
    pub open spec fn advance(self, m: Move) -> Pipeline {
        match m {
            Move::Capture { record } => if self.queue.len() < self.capacity {
                Pipeline {
                    queue: self.queue.push(record),
                    captured: self.captured.push(record@),
                    ..self
                }
            } else {
                self
            },
            Move::Work { event, now_ms } => {
                let (worker, queue, action) = self.worker.step(event, self.queue, now_ms);
                Pipeline {
                    queue,
                    worker,
                    delivered: if delivers(self.worker, event) {
                        self.delivered + self.worker.in_flight.unwrap().records
                    } else {
                        self.delivered
                    },
                    ..self
                }
            },
        }
    }

    /// The pipeline after the given moves, in order.
    pub open spec fn play(self, moves: Seq<Move>) -> Pipeline
        decreases moves.len(),
    {
        if moves.len() == 0 {
            self
        } else {
            self.play(moves.drop_last()).advance(moves.last())
        }
    }

    /// Every captured record is accounted for, once and in its place: the
    /// records delivered, then those the worker holds, then those queued,
    /// are the records captured, in the order of capture. Also, the queue
    /// is within its capacity and the worker is well formed.
    pub open spec fn accounted(self) -> bool {
        &&& self.delivered + self.worker.held() + record_views(self.queue) == self.captured
        &&& self.queue.len() <= self.capacity
        &&& self.worker.wf()
    }
}

/// No move loses, doubles or reorders a record, overfills the queue or
/// makes a batch too large.
pub proof fn lemma_advance_keeps_account(pipeline: Pipeline, m: Move)
    requires
        pipeline.accounted(),
    ensures
        pipeline.advance(m).accounted(),
{
    let after = pipeline.advance(m);
    match m {
        Move::Capture { record } => {
            if pipeline.queue.len() < pipeline.capacity {
                assert(record_views(after.queue) =~= record_views(pipeline.queue).push(record@));
                assert(after.delivered + after.worker.held() + record_views(after.queue)
                    =~= after.captured);
            }
        },
        Move::Work { event, now_ms } => {
            lemma_step_keeps_order(pipeline.worker, event, pipeline.queue, now_ms);
            let (worker, queue, action) = pipeline.worker.step(event, pipeline.queue, now_ms);
            if delivers(pipeline.worker, event) {
                let shipped = pipeline.worker.in_flight.unwrap().records;
                assert(pipeline.worker.held() =~= shipped + pipeline.worker.buffer);
                assert(after.delivered + after.worker.held() + record_views(after.queue) =~= (
                pipeline.delivered + shipped) + (worker.held() + record_views(queue)));
                assert(pipeline.delivered + pipeline.worker.held() + record_views(pipeline.queue)
                    =~= (pipeline.delivered + shipped) + (pipeline.worker.buffer + record_views(
                    pipeline.queue,
                )));
            } else {
                assert(after.delivered + after.worker.held() + record_views(after.queue)
                    =~= pipeline.delivered + (worker.held() + record_views(queue)));
                assert(pipeline.delivered + pipeline.worker.held() + record_views(pipeline.queue)
                    =~= pipeline.delivered + (pipeline.worker.held() + record_views(
                    pipeline.queue,
                )));
            }
        },
    }
}

/// From start to whatever moves follow, record order is kept end to end:
/// the delivered records are a prefix of the captured ones, and what
/// remains of these is held by the worker or queued, in the same order.
pub proof fn lemma_order_is_kept_end_to_end(
    capacity: nat,
    service_name: Seq<char>,
    now_ms: nat,
    moves: Seq<Move>,
)
    ensures
        Pipeline::start(capacity, service_name, now_ms).play(moves).accounted(),
        Pipeline::start(capacity, service_name, now_ms).play(moves).delivered.is_prefix_of(
            Pipeline::start(capacity, service_name, now_ms).play(moves).captured,
        ),
    decreases moves.len(),
{
    let start = Pipeline::start(capacity, service_name, now_ms);
    if moves.len() == 0 {
        assert(start.delivered + start.worker.held() + record_views(start.queue)
            =~= start.captured);
    } else {
        lemma_order_is_kept_end_to_end(capacity, service_name, now_ms, moves.drop_last());
        lemma_advance_keeps_account(start.play(moves.drop_last()), moves.last());
    }
    let reached = start.play(moves);
    assert(reached.delivered =~= reached.captured.subrange(0, reached.delivered.len() as int));
}

} // verus!
