//! The exporter: one batch, shipped again and again until a call succeeds.
//!
//! The export call itself is the caller's. The exporter says what to do
//! next (`ExportAction`) and is told what came of it (`ExportEvent`).

use vstd::prelude::*;
use crate::opentelclient::{ExportLogsServiceRequest, ExportLogsServiceResponse, ResourceLogsView};

verus! {

/// The pause between a failed export call and the next attempt, in
/// milliseconds. It is the same after every failure.
pub const RETRY_DELAY_MS: u64 = 1000;

/// Where an exporter stands with its batch.
#[derive(Clone, Copy, Debug, PartialEq, Eq, Structural)]
pub enum ExportState {
    /// An export call is due or under way.
    Sending,
    /// The last call failed; the retry delay is running.
    Waiting,
    /// A call succeeded: the batch is delivered.
    Delivered,
}

/// What the caller reports to the exporter.
#[derive(Clone, Copy, Debug, PartialEq, Eq, Structural)]
pub enum ExportEvent {
    /// The export call returned without an error, whatever its answer says
    /// of records that the collector turned down.
    Succeeded,
    /// The export call failed, for whatever reason.
    Failed,
    /// The pause that the exporter asked for is over.
    DelayElapsed,
}

/// Why an export call failed, as the transport reports it.
#[derive(Debug, PartialEq)]
pub struct ExportFailure {
    /// The status code of the call.
    pub code: i32,
    /// What the transport or the collector says of the failure.
    pub message: String,
}

/// The event that the outcome of an export call amounts to.
///
/// A call that returned an answer succeeded, whatever the answer says of
/// records that the collector turned down. Every error is a failure.
pub open spec fn outcome_event(outcome: Result<ExportLogsServiceResponse, ExportFailure>)
    -> ExportEvent {
    match outcome {
        Ok(_) => ExportEvent::Succeeded,
        Err(_) => ExportEvent::Failed,
    }
}

/// Tells which event the outcome of an export call amounts to.
pub fn classify(outcome: &Result<ExportLogsServiceResponse, ExportFailure>) -> (event: ExportEvent)
    ensures
        event == outcome_event(*outcome),
{
    match outcome {
        Ok(_) => ExportEvent::Succeeded,
        Err(_) => ExportEvent::Failed,
    }
}

/// What the exporter asks the caller to do next.
#[derive(Clone, Copy, Debug, PartialEq, Eq, Structural)]
pub enum ExportAction {
    /// Call the collector with the exporter's batch, then report
    /// `Succeeded` or `Failed`.
    Send,
    /// Pause for this many milliseconds, then report `DelayElapsed`.
    Wait(u64),
    /// Nothing is left to do: the batch is delivered.
    Finish,
}

/// What an exporter in a given state asks for when an event tells it
/// nothing new.
pub open spec fn awaited(state: ExportState) -> ExportAction {
    match state {
        ExportState::Sending => ExportAction::Send,
        ExportState::Waiting => ExportAction::Wait(RETRY_DELAY_MS),
        ExportState::Delivered => ExportAction::Finish,
    }
}

/// The state that follows `state` on `event`.
///
/// A success ends a call that is under way, a failure starts the retry
/// delay, and the end of the delay starts the next call. Every other
/// event leaves the state as it is.
pub open spec fn next_state(state: ExportState, event: ExportEvent) -> ExportState {
    match (state, event) {
        (ExportState::Sending, ExportEvent::Succeeded) => ExportState::Delivered,
        (ExportState::Sending, ExportEvent::Failed) => ExportState::Waiting,
        (ExportState::Waiting, ExportEvent::DelayElapsed) => ExportState::Sending,
        _ => state,
    }
}

/// The mathematical content of an `Exporter`.
pub ghost struct ExporterModel {
    pub batch: Seq<ResourceLogsView>,
    pub state: ExportState,
}

impl ExporterModel {
    /// The exporter after `event`: the state moves on, the batch stays.
    pub open spec fn next(self, event: ExportEvent) -> ExporterModel {
        ExporterModel { batch: self.batch, state: next_state(self.state, event) }
    }

    /// The exporter after a run of events, in order.
    pub open spec fn after(self, events: Seq<ExportEvent>) -> ExporterModel
        decreases events.len(),
    {
        if events.len() == 0 {
            self
        } else {
            self.next(events.first()).after(events.drop_first())
        }
    }
}

/// The export of one batch.
pub struct Exporter {
    batch: ExportLogsServiceRequest,
    state: ExportState,
}

impl View for Exporter {
    type V = ExporterModel;

    closed spec fn view(&self) -> ExporterModel {
        ExporterModel { batch: self.batch@, state: self.state }
    }
}

impl Exporter {
    /// Takes charge of `batch`. The first export call is due at once.
    pub fn new(batch: ExportLogsServiceRequest) -> (exporter: Self)
        ensures
            exporter@ == (ExporterModel { batch: batch@, state: ExportState::Sending }),
    {
        Exporter { batch, state: ExportState::Sending }
    }

    /// The batch to hand to every export call.
    pub fn batch(&self) -> (batch: &ExportLogsServiceRequest)
        ensures
            batch@ == self@.batch,
    {
        &self.batch
    }

    /// Returns where the exporter stands.
    pub fn state(&self) -> (state: ExportState)
        ensures
            state == self@.state,
    {
        self.state
    }

    /// Takes note of `event` and says what to do next.
    pub fn on_event(&mut self, event: ExportEvent) -> (action: ExportAction)
        ensures
            final(self)@ == old(self)@.next(event),
            action == awaited(final(self)@.state),
    {
        let state = match (self.state, event) {
            (ExportState::Sending, ExportEvent::Succeeded) => ExportState::Delivered,
            (ExportState::Sending, ExportEvent::Failed) => ExportState::Waiting,
            (ExportState::Waiting, ExportEvent::DelayElapsed) => ExportState::Sending,
            (state, _) => state,
        };
        self.state = state;
        match state {
            ExportState::Sending => ExportAction::Send,
            ExportState::Waiting => ExportAction::Wait(RETRY_DELAY_MS),
            ExportState::Delivered => ExportAction::Finish,
        }
    }

    /// Gives the batch back, delivered or not.
    pub fn into_batch(self) -> (batch: ExportLogsServiceRequest)
        ensures
            batch@ == self@.batch,
    {
        self.batch
    }
}

/// However often the export call fails, and whatever else is reported, the
/// batch that the exporter hands to the next call is the batch it was made
/// with: nothing is added, dropped or reordered across retries.
pub proof fn lemma_batch_is_kept(exporter: ExporterModel, events: Seq<ExportEvent>)
    ensures
        exporter.after(events).batch == exporter.batch,
    decreases events.len(),
{
    if events.len() > 0 {
        lemma_batch_is_kept(exporter.next(events.first()), events.drop_first());
    }
}

/// The events of `failures` failed calls, each followed by the end of its
/// retry delay.
pub open spec fn failed_attempts(failures: nat) -> Seq<ExportEvent>
    decreases failures,
{
    if failures == 0 {
        Seq::empty()
    } else {
        seq![ExportEvent::Failed, ExportEvent::DelayElapsed] + failed_attempts(
            (failures - 1) as nat,
        )
    }
}

/// After any number of failed calls and their delays the exporter is about
/// to send again, and one success then delivers the batch.
pub proof fn lemma_retry_until_success(exporter: ExporterModel, failures: nat)
    requires
        exporter.state == ExportState::Sending,
    ensures
        exporter.after(failed_attempts(failures)) == exporter,
        exporter.after(failed_attempts(failures)).next(ExportEvent::Succeeded) == (ExporterModel {
            batch: exporter.batch,
            state: ExportState::Delivered,
        }),
    decreases failures,
{
    if failures > 0 {
        let events = failed_attempts(failures);
        let rest = failed_attempts((failures - 1) as nat);
        let once = exporter.next(ExportEvent::Failed);
        let twice = once.next(ExportEvent::DelayElapsed);
        assert(events.drop_first().drop_first() =~= rest);
        lemma_retry_until_success(exporter, (failures - 1) as nat);
        assert(once.after(events.drop_first()) == twice.after(rest));
    }
}

} // verus!
