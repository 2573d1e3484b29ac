//! What a driver tells the machine, and what the machine answers.

use vstd::prelude::*;
use crate::error::ProcessorError;
use crate::event::{CompletionEvent, CompletionEventView};
use crate::format::DecoderBackend;
use crate::variant::{variants_view, Variant, VariantView};

verus! {

/// The period of the liveness heartbeat, in seconds: the driver reports a
/// tick each time it has passed.
pub const LEASE_REFRESH_PERIOD_SECS: u64 = 15;

/// How the blocking transform ended.
#[derive(Clone, Debug, PartialEq, Eq)]
pub enum TransformOutcome {
    /// The backend produced the job's variants, in order.
    Produced(Vec<Variant>),
    /// The backend ran and reported a failure.
    Failed,
    /// The transform could not be scheduled, or its thread ended without
    /// a result.
    NotScheduled,
}

/// The end of a transform as a mathematical value.
pub enum TransformOutcomeView {
    Produced(Seq<VariantView>),
    Failed,
    NotScheduled,
}

impl View for TransformOutcome {
    type V = TransformOutcomeView;

    open spec fn view(&self) -> TransformOutcomeView {
        match self {
            TransformOutcome::Produced(variants) => TransformOutcomeView::Produced(
                variants_view(variants@),
            ),
            TransformOutcome::Failed => TransformOutcomeView::Failed,
            TransformOutcome::NotScheduled => TransformOutcomeView::NotScheduled,
        }
    }
}

/// Something that happened outside the machine.
#[derive(Clone, Debug, PartialEq, Eq)]
pub enum Event {
    /// The driver is ready to work on the job.
    Begin,
    /// The period of the liveness heartbeat has passed.
    Tick,
    /// The renewal of the lease has returned.
    Refreshed { ok: bool },
    /// The job's deadline has passed.
    DeadlineElapsed,
    /// The creation of the workspace directory has returned.
    WorkspaceCreated { ok: bool },
    /// The exclusive creation of the input file has returned.
    InputCreated { ok: bool },
    /// The download has ended: with a status, or with `None` where no
    /// response was received.
    Downloaded { response: Option<u16> },
    /// The input was read back: its content, or `None` where it could not
    /// be read.
    InputRead { content: Option<Vec<u8>> },
    /// The blocking transform has ended.
    Transformed { outcome: TransformOutcome },
    /// The upload in flight has ended: with a status, or with `None`
    /// where no response was received.
    Uploaded { response: Option<u16> },
    /// The publication of the completion event has returned.
    Published { ok: bool },
    /// The deletion of the durable record has returned.
    Deleted { ok: bool },
}

/// An event as a mathematical value.
pub enum EventView {
    Begin,
    Tick,
    Refreshed { ok: bool },
    DeadlineElapsed,
    WorkspaceCreated { ok: bool },
    InputCreated { ok: bool },
    Downloaded { response: Option<u16> },
    InputRead { content: Option<Seq<u8>> },
    Transformed { outcome: TransformOutcomeView },
    Uploaded { response: Option<u16> },
    Published { ok: bool },
    Deleted { ok: bool },
}

impl View for Event {
    type V = EventView;

    open spec fn view(&self) -> EventView {
        match self {
            Event::Begin => EventView::Begin,
            Event::Tick => EventView::Tick,
            Event::Refreshed { ok } => EventView::Refreshed { ok: *ok },
            Event::DeadlineElapsed => EventView::DeadlineElapsed,
            Event::WorkspaceCreated { ok } => EventView::WorkspaceCreated { ok: *ok },
            Event::InputCreated { ok } => EventView::InputCreated { ok: *ok },
            Event::Downloaded { response } => EventView::Downloaded { response: *response },
            Event::InputRead { content } => EventView::InputRead {
                content: match content {
                    Some(bytes) => Some(bytes@),
                    None => None,
                },
            },
            Event::Transformed { outcome } => EventView::Transformed { outcome: outcome@ },
            Event::Uploaded { response } => EventView::Uploaded { response: *response },
            Event::Published { ok } => EventView::Published { ok: *ok },
            Event::Deleted { ok } => EventView::Deleted { ok: *ok },
        }
    }
}

/// A piece of outside work of the pipeline.  Each is answered by the
/// event of the same stage.
#[derive(Clone, Debug, PartialEq, Eq)]
pub enum Operation {
    /// Create the directory `path` and what is missing above it.
    CreateWorkspace { path: String },
    /// Create the file `path`, which must not exist yet.
    CreateInput { path: String },
    /// Stream `object` of the source store into the file `destination`.
    Download { object: String, destination: String },
    /// Read the file `path` and hand back its content.
    ReadInput { path: String },
    /// Run the decoder backend on the file `input`, off the cooperative
    /// scheduler.
    Transform { backend: DecoderBackend, input: String },
    /// Store the variant at `index` under `key` in the target store.
    Upload { index: usize, key: String, content_type: String },
    /// Publish `event` to `subject`.
    Publish { subject: String, event: CompletionEvent },
    /// Delete the durable record of the job.
    DeleteRecord { id: u128 },
}

/// An operation as a mathematical value.
pub enum OperationView {
    CreateWorkspace { path: Seq<char> },
    CreateInput { path: Seq<char> },
    Download { object: Seq<char>, destination: Seq<char> },
    ReadInput { path: Seq<char> },
    Transform { backend: DecoderBackend, input: Seq<char> },
    Upload { index: nat, key: Seq<char>, content_type: Seq<char> },
    Publish { subject: Seq<char>, event: CompletionEventView },
    DeleteRecord { id: u128 },
}

impl OperationView {
    /// The position in the pipeline of the stage that the operation
    /// belongs to: the operations are numbered in the order in which a job
    /// needs them.
    pub open spec fn position(self) -> nat {
        match self {
            OperationView::CreateWorkspace { .. } => 1,
            OperationView::CreateInput { .. } => 2,
            OperationView::Download { .. } => 3,
            OperationView::ReadInput { .. } => 4,
            OperationView::Transform { .. } => 5,
            OperationView::Upload { .. } => 6,
            OperationView::Publish { .. } => 7,
            OperationView::DeleteRecord { .. } => 8,
        }
    }
}

impl View for Operation {
    type V = OperationView;

    open spec fn view(&self) -> OperationView {
        match self {
            Operation::CreateWorkspace { path } => OperationView::CreateWorkspace { path: path@ },
            Operation::CreateInput { path } => OperationView::CreateInput { path: path@ },
            Operation::Download { object, destination } => OperationView::Download {
                object: object@,
                destination: destination@,
            },
            Operation::ReadInput { path } => OperationView::ReadInput { path: path@ },
            Operation::Transform { backend, input } => OperationView::Transform {
                backend: *backend,
                input: input@,
            },
            Operation::Upload { index, key, content_type } => OperationView::Upload {
                index: *index as nat,
                key: key@,
                content_type: content_type@,
            },
            Operation::Publish { subject, event } => OperationView::Publish {
                subject: subject@,
                event: event@,
            },
            Operation::DeleteRecord { id } => OperationView::DeleteRecord { id: *id },
        }
    }
}

/// What the machine asks of its driver in answer to an event.
#[derive(Debug, PartialEq, Eq)]
pub enum Command {
    /// Start this operation and report its end.
    Perform(Operation),
    /// Renew the lease on the job and report with [`Event::Refreshed`].
    /// Until then the pipeline rests: the operation in flight may go on,
    /// and its report is kept; the deadline is taken as ever.
    RefreshLease { id: u128 },
    /// The renewal is done and no report was kept meanwhile: go on
    /// waiting for the operation in flight, for the next tick and for the
    /// deadline.
    Resume,
    /// The job has ended with `outcome`.  Whatever the outcome, remove
    /// the directory `workspace` and all below it; a failure to remove it
    /// is noted and changes nothing about the outcome.
    Finish { outcome: Result<(), ProcessorError>, workspace: String },
    /// The report is kept until the renewal of the lease has returned; go
    /// on waiting for that, and for the deadline.
    Held,
    /// The event did not apply and has changed nothing.
    Ignored,
}

/// A command as a mathematical value.
pub enum CommandView {
    Perform(OperationView),
    RefreshLease { id: u128 },
    Resume,
    Finish { outcome: Result<(), ProcessorError>, workspace: Seq<char> },
    Held,
    Ignored,
}

impl View for Command {
    type V = CommandView;

    open spec fn view(&self) -> CommandView {
        match self {
            Command::Perform(operation) => CommandView::Perform(operation@),
            Command::RefreshLease { id } => CommandView::RefreshLease { id: *id },
            Command::Resume => CommandView::Resume,
            Command::Finish { outcome, workspace } => CommandView::Finish {
                outcome: *outcome,
                workspace: workspace@,
            },
            Command::Held => CommandView::Held,
            Command::Ignored => CommandView::Ignored,
        }
    }
}

} // verus!
