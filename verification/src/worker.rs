//! The batching worker: drains the queue, decides when a batch is due, and
//! sees every batch through its export.
//!
//! The worker never sleeps, reads a clock or calls the collector. Its caller
//! runs the loop: it reports an `Event` together with the current time,
//! gets an `Action` back, performs it, and reports what came of it.

use vstd::prelude::*;
use crate::batch::{batch_of, batch_records, make_batch, MAX_BATCH};
use crate::exporter::{ExportAction, ExportEvent, ExportState, Exporter, RETRY_DELAY_MS};
use crate::opentelclient::{
    record_views, ExportLogsServiceRequest, LogRecord, LogRecordView, ResourceLogsView,
};
use crate::queue::BoundedQueue;

verus! {

/// A batch is due as soon as this many records are buffered.
pub const FLUSH_COUNT: usize = 100;

/// A batch is due as soon as this many milliseconds have passed since the
/// last successful export, however few records are buffered.
pub const FLUSH_INTERVAL_MS: u64 = 1000;

/// How long the worker rests, in milliseconds, when no batch is due.
pub const IDLE_SLEEP_MS: u64 = 100;

/// What the caller reports to the worker.
#[derive(Clone, Copy, Debug, PartialEq, Eq, Structural)]
pub enum Event {
    /// The worker was started, or the pause it asked for is over.
    Wake,
    /// The export call returned without an error.
    ExportSucceeded,
    /// The export call failed.
    ExportFailed,
    /// The process is about to end.
    Shutdown,
}

impl Event {
    /// The worker's event for an event of the exporter.
    pub open spec fn of_export(event: ExportEvent) -> Event {
        match event {
            ExportEvent::Succeeded => Event::ExportSucceeded,
            ExportEvent::Failed => Event::ExportFailed,
            ExportEvent::DelayElapsed => Event::Wake,
        }
    }

    /// Returns the worker's event for an event of the exporter.
    pub fn from_export(event: ExportEvent) -> (mine: Event)
        ensures
            mine == Event::of_export(event),
    {
        match event {
            ExportEvent::Succeeded => Event::ExportSucceeded,
            ExportEvent::Failed => Event::ExportFailed,
            ExportEvent::DelayElapsed => Event::Wake,
        }
    }
}

/// What the worker asks the caller to do next.
#[derive(Clone, Copy, Debug, PartialEq, Eq, Structural)]
pub enum Action {
    /// Call the collector with the batch in flight, then report
    /// `ExportSucceeded` or `ExportFailed`.
    Export,
    /// Pause for this many milliseconds, then report `Wake`.
    Sleep(u64),
    /// Stop: the worker is done for good.
    Exit,
}

/// What the worker is busy with.
#[derive(Clone, Copy, Debug, PartialEq, Eq, Structural)]
pub enum Phase {
    /// No batch is in flight: the worker drains and decides on every wake.
    Polling,
    /// A batch is in flight and an export call is due or under way.
    Flushing,
    /// A batch is in flight and the retry delay is running.
    Backoff,
    /// The worker has stopped.
    Stopped,
}

/// The milliseconds from `since_ms` to `now_ms`, and zero if the clock
/// appears to have gone back.
pub open spec fn elapsed_ms(now_ms: nat, since_ms: nat) -> nat {
    if now_ms >= since_ms {
        (now_ms - since_ms) as nat
    } else {
        0
    }
}

/// Whether a batch is due: enough records are buffered, or enough time has
/// passed since the last successful export.
pub open spec fn flush_due(buffered: nat, now_ms: nat, last_flush_ms: nat) -> bool {
    buffered >= FLUSH_COUNT || elapsed_ms(now_ms, last_flush_ms) >= FLUSH_INTERVAL_MS
}

/// How many records one drain pass moves: all that are queued, but no more
/// than the buffer has room for below `MAX_BATCH`.
pub open spec fn drain_count(buffered: nat, queued: nat) -> nat {
    if buffered >= MAX_BATCH {
        0
    } else if queued <= MAX_BATCH - buffered {
        queued
    } else {
        (MAX_BATCH - buffered) as nat
    }
}

/// Tells whether a batch is due.
pub fn is_flush_due(buffered: usize, now_ms: u64, last_flush_ms: u64) -> (due: bool)
    ensures
        due == flush_due(buffered as nat, now_ms as nat, last_flush_ms as nat),
{
    let elapsed = if now_ms >= last_flush_ms {
        now_ms - last_flush_ms
    } else {
        0
    };
    buffered >= FLUSH_COUNT || elapsed >= FLUSH_INTERVAL_MS
}

/// One drain pass: moves records from the front of `queue` to the end of
/// `buffer`, oldest first, until the queue is empty or the buffer holds
/// `MAX_BATCH` records.
pub fn drain(buffer: &mut Vec<LogRecord>, queue: &mut BoundedQueue<LogRecord>)
    ensures
        final(buffer)@ == old(buffer)@ + old(queue)@.take(
            drain_count(old(buffer)@.len(), old(queue)@.len()) as int,
        ),
        final(queue)@ == old(queue)@.skip(
            drain_count(old(buffer)@.len(), old(queue)@.len()) as int,
        ),
        final(queue).spec_capacity() == old(queue).spec_capacity(),
        final(queue)@.len() <= final(queue).spec_capacity(),
{
    let ghost moved: int = 0;
    proof {
        use_type_invariant(&*queue);
        queue.lemma_within_capacity();
    }
    loop
        invariant
            0 <= moved <= old(queue)@.len(),
            moved <= drain_count(old(buffer)@.len(), old(queue)@.len()),
            buffer@ == old(buffer)@ + old(queue)@.take(moved),
            queue@ == old(queue)@.skip(moved),
            queue.spec_capacity() == old(queue).spec_capacity(),
            queue@.len() <= queue.spec_capacity(),
        ensures
            moved == drain_count(old(buffer)@.len(), old(queue)@.len()),
            buffer@ == old(buffer)@ + old(queue)@.take(moved),
            queue@ == old(queue)@.skip(moved),
            queue.spec_capacity() == old(queue).spec_capacity(),
            queue@.len() <= queue.spec_capacity(),
        decreases old(queue)@.len() - moved,
    {
        if buffer.len() >= MAX_BATCH {
            break;
        }
        match queue.try_take() {
            None => {
                break;
            },
            Some(record) => {
                buffer.push(record);
                proof {
                    moved = moved + 1;
                }
            },
        }
    }
}

/// A batch in flight, as the worker's model sees it.
pub ghost struct Flight {
    /// The records of the batch, in export order.
    pub records: Seq<LogRecordView>,
    /// Whether the retry delay is running.
    pub waiting: bool,
}

/// The mathematical content of a `BatchingWorker`.
pub ghost struct WorkerModel {
    /// The service name that every batch carries.
    pub service_name: Seq<char>,
    /// The records drained but not yet made into a batch, oldest first.
    pub buffer: Seq<LogRecordView>,
    /// When the last export succeeded, or else when the worker was made.
    pub last_flush_ms: nat,
    /// The batch that awaits its successful export, if there is one.
    pub in_flight: Option<Flight>,
    /// Whether shutdown was asked for.
    pub stopping: bool,
    /// Whether the worker has stopped.
    pub stopped: bool,
}

impl WorkerModel {
    /// Neither the buffer nor the batch in flight exceeds `MAX_BATCH`.
    pub open spec fn wf(self) -> bool {
        &&& self.buffer.len() <= MAX_BATCH
        &&& (self.in_flight matches Some(flight) ==> flight.records.len() <= MAX_BATCH)
    }

    /// A worker that was just made, at time `now_ms`.
    pub open spec fn start(service_name: Seq<char>, now_ms: nat) -> WorkerModel {
        WorkerModel {
            service_name,
            buffer: Seq::empty(),
            last_flush_ms: now_ms,
            in_flight: None,
            stopping: false,
            stopped: false,
        }
    }

    /// What the worker is busy with.
    pub open spec fn phase(self) -> Phase {
        if self.stopped {
            Phase::Stopped
        } else {
            match self.in_flight {
                None => Phase::Polling,
                Some(flight) => if flight.waiting {
                    Phase::Backoff
                } else {
                    Phase::Flushing
                },
            }
        }
    }

    /// The batch in flight, in the form in which it is exported.
    pub open spec fn batch(self) -> Option<Seq<ResourceLogsView>> {
        match self.in_flight {
            Some(flight) => Some(batch_of(self.service_name, flight.records)),
            None => None,
        }
    }

    /// The records that the worker holds, oldest first: those of the batch
    /// in flight, then those of the buffer.
    pub open spec fn held(self) -> Seq<LogRecordView> {
        match self.in_flight {
            Some(flight) => flight.records + self.buffer,
            None => self.buffer,
        }
    }

    /// The worker after the whole buffer has become the batch in flight.
    pub open spec fn flushed(self) -> WorkerModel {
        WorkerModel {
            buffer: Seq::empty(),
            in_flight: Some(Flight { records: self.buffer, waiting: false }),
            ..self
        }
    }

    /// A drain pass followed by the decision: the batch is made and its
    /// export asked for if it is due, and the worker rests otherwise.
    pub open spec fn poll(self, queue: Seq<LogRecord>, now_ms: nat) -> (
        WorkerModel,
        Seq<LogRecord>,
        Action,
    ) {
        let count = drain_count(self.buffer.len(), queue.len()) as int;
        let drained = WorkerModel {
            buffer: self.buffer + record_views(queue.take(count)),
            ..self
        };
        if flush_due(drained.buffer.len(), now_ms, self.last_flush_ms) {
            (drained.flushed(), queue.skip(count), Action::Export)
        } else {
            (drained, queue.skip(count), Action::Sleep(IDLE_SLEEP_MS))
        }
    }

    /// The reaction to `event` at time `now_ms`, with `queue` at hand: the
    /// worker afterwards, what is left of the queue, and the action asked
    /// for.
    ///
    /// - A stopped worker stays as it is and asks to exit.
    /// - With no batch in flight, a wake is a poll. Shutdown sends what is
    ///   buffered as a last batch, or stops at once if nothing is. A
    ///   report on an export that nobody asked for changes nothing. Once
    ///   shutdown was asked for, every event stops the worker.
    /// - With a batch in flight, a wake or a shutdown asks for its export,
    ///   at once. A failure starts the retry delay, and after shutdown
    ///   stops the worker instead. A success discards the batch, notes
    ///   the time as that of the last flush, and goes on with a poll, or
    ///   after shutdown stops the worker. A report on an export that
    ///   arrives while the retry delay runs changes nothing.
    pub open spec fn step(self, event: Event, queue: Seq<LogRecord>, now_ms: nat) -> (
        WorkerModel,
        Seq<LogRecord>,
        Action,
    ) {
        if self.stopped {
            (self, queue, Action::Exit)
        } else {
            match self.in_flight {
                None => if self.stopping {
                    (WorkerModel { stopped: true, ..self }, queue, Action::Exit)
                } else {
                    match event {
                        Event::Wake => self.poll(queue, now_ms),
                        Event::Shutdown => if self.buffer.len() > 0 {
                            (
                                WorkerModel { stopping: true, ..self.flushed() },
                                queue,
                                Action::Export,
                            )
                        } else {
                            (
                                WorkerModel { stopping: true, stopped: true, ..self },
                                queue,
                                Action::Exit,
                            )
                        },
                        _ => (self, queue, Action::Sleep(IDLE_SLEEP_MS)),
                    }
                },
                Some(flight) => match event {
                    Event::Wake => (
                        WorkerModel {
                            in_flight: Some(Flight { waiting: false, ..flight }),
                            ..self
                        },
                        queue,
                        Action::Export,
                    ),
                    Event::Shutdown => (
                        WorkerModel {
                            in_flight: Some(Flight { waiting: false, ..flight }),
                            stopping: true,
                            ..self
                        },
                        queue,
                        Action::Export,
                    ),
                    Event::ExportFailed => if flight.waiting {
                        (self, queue, Action::Sleep(RETRY_DELAY_MS))
                    } else if self.stopping {
                        (WorkerModel { stopped: true, ..self }, queue, Action::Exit)
                    } else {
                        (
                            WorkerModel {
                                in_flight: Some(Flight { waiting: true, ..flight }),
                                ..self
                            },
                            queue,
                            Action::Sleep(RETRY_DELAY_MS),
                        )
                    },
                    Event::ExportSucceeded => if flight.waiting {
                        (self, queue, Action::Sleep(RETRY_DELAY_MS))
                    } else {
                        let delivered = WorkerModel {
                            in_flight: None,
                            last_flush_ms: now_ms,
                            ..self
                        };
                        if self.stopping {
                            (WorkerModel { stopped: true, ..delivered }, queue, Action::Exit)
                        } else {
                            delivered.poll(queue, now_ms)
                        }
                    },
                },
            }
        }
    }
}

/// The single background worker.
pub struct BatchingWorker {
    service_name: String,
    buffer: Vec<LogRecord>,
    last_flush_ms: u64,
    exporter: Option<Exporter>,
    stopping: bool,
    stopped: bool,
}

impl View for BatchingWorker {
    type V = WorkerModel;

    closed spec fn view(&self) -> WorkerModel {
        WorkerModel {
            service_name: self.service_name@,
            buffer: record_views(self.buffer@),
            last_flush_ms: self.last_flush_ms as nat,
            in_flight: match self.exporter {
                Some(exporter) => Some(
                    Flight {
                        records: batch_records(exporter@.batch),
                        waiting: exporter@.state == ExportState::Waiting,
                    },
                ),
                None => None,
            },
            stopping: self.stopping,
            stopped: self.stopped,
        }
    }
}

impl BatchingWorker {
    /// The invariant of the type: the buffer and the batch in flight are
    /// within `MAX_BATCH`, and the batch in flight is one that `batch_of`
    /// makes for this worker's service and is not delivered yet.
    #[verifier::type_invariant]
    pub closed spec fn well_formed(self) -> bool {
        &&& self.buffer@.len() <= MAX_BATCH
        &&& match self.exporter {
            Some(exporter) => {
                &&& exporter@.state != ExportState::Delivered
                &&& exporter@.batch == batch_of(
                    self.service_name@,
                    batch_records(exporter@.batch),
                )
                &&& batch_records(exporter@.batch).len() <= MAX_BATCH
            },
            None => true,
        }
    }

    /// What the invariant says in terms of the view.
    pub proof fn lemma_well_formed(self)
        requires
            self.well_formed(),
        ensures
            self@.wf(),
    {
    }

    /// Makes a worker for the service `service_name` at time `now_ms`. It
    /// holds no records, and its flush interval starts now.
    pub fn new(service_name: String, now_ms: u64) -> (worker: Self)
        ensures
            worker@ == WorkerModel::start(service_name@, now_ms as nat),
            worker@.wf(),
    {
        let worker = BatchingWorker {
            service_name,
            buffer: Vec::new(),
            last_flush_ms: now_ms,
            exporter: None,
            stopping: false,
            stopped: false,
        };
        assert(worker@.buffer =~= Seq::empty());
        worker
    }

    /// Tells what the worker is busy with.
    pub fn phase(&self) -> (phase: Phase)
        ensures
            phase == self@.phase(),
    {
        if self.stopped {
            return Phase::Stopped;
        }
        match &self.exporter {
            None => Phase::Polling,
            Some(exporter) => match exporter.state() {
                ExportState::Waiting => Phase::Backoff,
                _ => Phase::Flushing,
            },
        }
    }

    /// Returns the number of records in the buffer.
    pub fn buffered(&self) -> (count: usize)
        ensures
            count == self@.buffer.len(),
            count <= MAX_BATCH,
    {
        proof {
            use_type_invariant(self);
        }
        self.buffer.len()
    }

    /// Returns the batch in flight: what every export call is to ship until
    /// one succeeds.
    pub fn in_flight(&self) -> (batch: Option<&ExportLogsServiceRequest>)
        ensures
            self@.wf(),
            match batch {
                Some(request) => self@.batch() == Some(request@),
                None => self@.batch() is None,
            },
    {
        proof {
            use_type_invariant(self);
        }
        match &self.exporter {
            Some(exporter) => Some(exporter.batch()),
            None => None,
        }
    }

    /// Moves the buffer into a new batch and puts it in flight.
    fn flush(&mut self)
        requires
            old(self).exporter is None,
        ensures
            final(self)@ == old(self)@.flushed(),
    {
        proof {
            use_type_invariant(&*self);
        }
        let mut records: Vec<LogRecord> = Vec::new();
        std::mem::swap(&mut self.buffer, &mut records);
        let batch = make_batch(&self.service_name, records);
        self.exporter = Some(Exporter::new(batch));
        assert(self@.buffer =~= Seq::empty());
    }

    /// A drain pass followed by the decision.
    fn poll(&mut self, queue: &mut BoundedQueue<LogRecord>, now_ms: u64) -> (action: Action)
        requires
            old(self).exporter is None,
        ensures
            (final(self)@, final(queue)@, action) == old(self)@.poll(old(queue)@, now_ms as nat),
            final(queue).spec_capacity() == old(queue).spec_capacity(),
            final(queue)@.len() <= final(queue).spec_capacity(),
    {
        proof {
            use_type_invariant(&*self);
        }
        let ghost count = drain_count(old(self).buffer@.len(), old(queue)@.len()) as int;
        let mut records: Vec<LogRecord> = Vec::new();
        std::mem::swap(&mut self.buffer, &mut records);
        drain(&mut records, queue);
        self.buffer = records;
        assert(record_views(self.buffer@) =~= old(self)@.buffer + record_views(
            old(queue)@.take(count),
        ));
        if is_flush_due(self.buffer.len(), now_ms, self.last_flush_ms) {
            self.flush();
            Action::Export
        } else {
            Action::Sleep(IDLE_SLEEP_MS)
        }
    }

    /// Takes note of `event`, which the caller observed at `now_ms`
    /// milliseconds on its clock, and says what to do next. Records are
    /// taken from `queue` only on a poll.
    pub fn step(&mut self, event: Event, queue: &mut BoundedQueue<LogRecord>, now_ms: u64) -> (action:
        Action)
        ensures
            (final(self)@, final(queue)@, action) == old(self)@.step(event, old(queue)@, now_ms as nat),
            final(self)@.wf(),
            final(queue).spec_capacity() == old(queue).spec_capacity(),
            final(queue)@.len() <= final(queue).spec_capacity(),
    {
        proof {
            use_type_invariant(&*self);
            use_type_invariant(&*queue);
            queue.lemma_within_capacity();
        }
        if self.stopped {
            return Action::Exit;
        }
        let mut taken: Option<Exporter> = None;
        std::mem::swap(&mut self.exporter, &mut taken);
        let action = match taken {
            None => if self.stopping {
                self.stopped = true;
                Action::Exit
            } else {
                match event {
                    Event::Wake => self.poll(queue, now_ms),
                    Event::Shutdown => {
                        self.stopping = true;
                        if self.buffer.len() > 0 {
                            self.flush();
                            Action::Export
                        } else {
                            self.stopped = true;
                            Action::Exit
                        }
                    },
                    _ => Action::Sleep(IDLE_SLEEP_MS),
                }
            },
            Some(mut exporter) => match event {
                Event::Wake => {
                    let _ = exporter.on_event(ExportEvent::DelayElapsed);
                    self.exporter = Some(exporter);
                    Action::Export
                },
                Event::Shutdown => {
                    let _ = exporter.on_event(ExportEvent::DelayElapsed);
                    self.exporter = Some(exporter);
                    self.stopping = true;
                    Action::Export
                },
                Event::ExportFailed => match exporter.state() {
                    ExportState::Waiting => {
                        self.exporter = Some(exporter);
                        Action::Sleep(RETRY_DELAY_MS)
                    },
                    _ => if self.stopping {
                        self.exporter = Some(exporter);
                        self.stopped = true;
                        Action::Exit
                    } else {
                        let _ = exporter.on_event(ExportEvent::Failed);
                        self.exporter = Some(exporter);
                        Action::Sleep(RETRY_DELAY_MS)
                    },
                },
                Event::ExportSucceeded => match exporter.state() {
                    ExportState::Waiting => {
                        self.exporter = Some(exporter);
                        Action::Sleep(RETRY_DELAY_MS)
                    },
                    _ => {
                        self.last_flush_ms = now_ms;
                        if self.stopping {
                            self.stopped = true;
                            Action::Exit
                        } else {
                            self.poll(queue, now_ms)
                        }
                    },
                },
            },
        };
        proof {
            use_type_invariant(&*self);
        }
        action
    }
}

} // verus!
