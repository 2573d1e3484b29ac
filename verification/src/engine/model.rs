//! The machine as mathematics: its state and its transition function.

use vstd::prelude::*;
use crate::engine::protocol::{CommandView, EventView, OperationView, TransformOutcomeView};
use crate::error::ProcessorError;
use crate::event::completion_event;
use crate::format::{backend_for, format_named, sniffed_name};
use crate::job::JobView;
use crate::path::{input_path, workspace_path};
use crate::transport::response_verdict;
use crate::variant::{result_prefix, storage_key, VariantView};

verus! {

/// How far the pipeline of a job has come.  Each stage but the first and
/// the last names the operation whose end is awaited.  A job that fails
/// stays at the stage it failed in.
#[derive(Clone, Copy, Debug, PartialEq, Eq, Structural)]
pub enum Stage {
    /// Nothing has been ordered yet.
    Idle,
    CreatingWorkspace,
    CreatingInput,
    Downloading,
    Classifying,
    Transforming,
    Uploading,
    Publishing,
    Deleting,
    /// The durable record is deleted: the job is complete.
    Done,
}

impl Stage {
    /// The position of a stage in the pipeline.
    pub open spec fn rank(self) -> nat {
        match self {
            Stage::Idle => 0,
            Stage::CreatingWorkspace => 1,
            Stage::CreatingInput => 2,
            Stage::Downloading => 3,
            Stage::Classifying => 4,
            Stage::Transforming => 5,
            Stage::Uploading => 6,
            Stage::Publishing => 7,
            Stage::Deleting => 8,
            Stage::Done => 9,
        }
    }
}

/// The state of the machine.
pub struct Model {
    /// The job that is being worked on.
    pub job: JobView,
    /// The directory that holds everything local to the job.
    pub workspace: Seq<char>,
    /// How far the pipeline has come.
    pub stage: Stage,
    /// Whether a renewal of the lease is in flight.  While it is, the
    /// pipeline rests.
    pub refreshing: bool,
    /// The report of the operation in flight, where it came in while the
    /// pipeline rested: it is kept until the renewal has returned.
    pub held: Option<EventView>,
    /// The name of the format that was found in the input, once it was
    /// read.
    pub detected: Option<Seq<char>>,
    /// The variants the backend produced; empty before it has.
    pub variants: Seq<VariantView>,
    /// How many of the variants, from the first on, are stored.
    pub uploaded: nat,
    /// The outcome of the job, once it has ended.
    pub outcome: Option<Result<(), ProcessorError>>,
}

/// A transition: the state that follows, and the command to the driver.
pub struct Step {
    pub next: Model,
    pub command: CommandView,
}

/// The state in which the machine for `job` starts, with its workspace
/// below `parent`.
pub open spec fn initial(job: JobView, parent: Seq<char>) -> Model {
    Model {
        job,
        workspace: workspace_path(parent, job.id),
        stage: Stage::Idle,
        refreshing: false,
        held: None,
        detected: None,
        variants: Seq::empty(),
        uploaded: 0,
        outcome: None,
    }
}

impl Model {
    /// Whether the job is still being worked on.
    pub open spec fn live(self) -> bool {
        self.outcome is None
    }

    /// What the keys of the job's results begin with.
    pub open spec fn prefix(self) -> Seq<char> {
        result_prefix(self.job.task.output_prefix, self.job.id)
    }

    /// The file the input is fetched into.
    pub open spec fn input(self) -> Seq<char> {
        input_path(self.workspace)
    }

    /// What holds of every state the machine can be in.
    pub open spec fn inv(self) -> bool {
        &&& self.uploaded <= self.variants.len()
        &&& self.stage.rank() < Stage::Uploading.rank() ==> self.variants.len() == 0
        &&& self.stage == Stage::Uploading ==> self.uploaded < self.variants.len()
        &&& self.stage.rank() > Stage::Uploading.rank() ==> self.uploaded == self.variants.len()
        &&& self.stage == Stage::Done <==> self.outcome == Some(Ok::<(), ProcessorError>(()))
        &&& self.outcome matches Some(Err(ProcessorError::Upload(_))) ==> self.stage
            == Stage::Uploading
        &&& !self.refreshing ==> self.held is None
        &&& self.held matches Some(report) ==> self.awaits(report)
    }

    /// Whether `event` reports the end of the operation the pipeline waits
    /// for.
    pub open spec fn awaits(self, event: EventView) -> bool {
        match (self.stage, event) {
            (Stage::Idle, EventView::Begin) => true,
            (Stage::CreatingWorkspace, EventView::WorkspaceCreated { .. }) => true,
            (Stage::CreatingInput, EventView::InputCreated { .. }) => true,
            (Stage::Downloading, EventView::Downloaded { .. }) => true,
            (Stage::Classifying, EventView::InputRead { .. }) => true,
            (Stage::Transforming, EventView::Transformed { .. }) => true,
            (Stage::Uploading, EventView::Uploaded { .. }) => true,
            (Stage::Publishing, EventView::Published { .. }) => true,
            (Stage::Deleting, EventView::Deleted { .. }) => true,
            _ => false,
        }
    }

    /// The report the pipeline acts on when the machine takes `event`, if
    /// it acts on one: the event itself while the pipeline runs, and the
    /// report that was kept when a renewal returns with success.
    pub open spec fn taken(self, event: EventView) -> Option<EventView> {
        if !self.live() {
            None
        } else if self.refreshing {
            if event == (EventView::Refreshed { ok: true }) {
                self.held
            } else {
                None
            }
        } else if self.awaits(event) {
            Some(event)
        } else {
            None
        }
    }

    /// The event changes nothing.
    pub open spec fn ignore(self) -> Step {
        Step { next: self, command: CommandView::Ignored }
    }

    /// The job ends in failure, at the stage it is in.
    pub open spec fn fail(self, error: ProcessorError) -> Step {
        Step {
            next: Model { outcome: Some(Err(error)), ..self },
            command: CommandView::Finish { outcome: Err(error), workspace: self.workspace },
        }
    }

    /// The pipeline enters `stage` by ordering `operation`.
    pub open spec fn order(self, stage: Stage, operation: OperationView) -> Step {
        Step { next: Model { stage, ..self }, command: CommandView::Perform(operation) }
    }

    /// What follows once the first `self.uploaded` variants are stored:
    /// the upload of the next one or, where none is left, the one
    /// completion event.
    pub open spec fn after_upload(self) -> Step {
        if self.uploaded < self.variants.len() {
            let variant = self.variants[self.uploaded as int];
            self.order(
                Stage::Uploading,
                OperationView::Upload {
                    index: self.uploaded,
                    key: storage_key(self.prefix(), variant.request),
                    content_type: variant.request.format.content_type_text(),
                },
            )
        } else {
            self.order(
                Stage::Publishing,
                OperationView::Publish {
                    subject: self.job.task.callback_subject,
                    event: completion_event(self.job.id, self.prefix(), self.variants),
                },
            )
        }
    }

    /// The pipeline's answer to the end of the operation it waits for.
    /// The stages follow each other strictly; an event that does not end
    /// the stage the pipeline is in changes nothing.
    #[verifier::opaque]
    pub open spec fn advance(self, event: EventView) -> Step {
        match (self.stage, event) {
            (Stage::Idle, EventView::Begin) => self.order(
                Stage::CreatingWorkspace,
                OperationView::CreateWorkspace { path: self.workspace },
            ),
            (Stage::CreatingWorkspace, EventView::WorkspaceCreated { ok }) => if ok {
                self.order(Stage::CreatingInput, OperationView::CreateInput { path: self.input() })
            } else {
                self.fail(ProcessorError::DirectoryCreate)
            },
            (Stage::CreatingInput, EventView::InputCreated { ok }) => if ok {
                self.order(
                    Stage::Downloading,
                    OperationView::Download {
                        object: self.job.task.input_path,
                        destination: self.input(),
                    },
                )
            } else {
                self.fail(ProcessorError::FileCreate)
            },
            (Stage::Downloading, EventView::Downloaded { response }) => match response_verdict(
                response,
            ) {
                Ok(_) => self.order(
                    Stage::Classifying,
                    OperationView::ReadInput { path: self.input() },
                ),
                Err(failure) => self.fail(ProcessorError::Download(failure)),
            },
            (Stage::Classifying, EventView::InputRead { content }) => match content {
                Some(bytes) => {
                    let name = sniffed_name(bytes);
                    let found = Model { detected: Some(name), ..self };
                    match backend_for(format_named(name)) {
                        Ok(backend) => found.order(
                            Stage::Transforming,
                            OperationView::Transform { backend, input: self.input() },
                        ),
                        Err(error) => found.fail(error),
                    }
                },
                None => self.fail(ProcessorError::FileFormat),
            },
            (Stage::Transforming, EventView::Transformed { outcome }) => match outcome {
                TransformOutcomeView::Produced(variants) => (Model {
                    variants,
                    uploaded: 0,
                    ..self
                }).after_upload(),
                TransformOutcomeView::Failed => self.fail(ProcessorError::Backend),
                TransformOutcomeView::NotScheduled => self.fail(ProcessorError::BlockingTaskSpawn),
            },
            (Stage::Uploading, EventView::Uploaded { response }) => match response_verdict(
                response,
            ) {
                Ok(_) => (Model { uploaded: self.uploaded + 1, ..self }).after_upload(),
                Err(failure) => self.fail(ProcessorError::Upload(failure)),
            },
            (Stage::Publishing, EventView::Published { ok }) => if ok {
                self.order(Stage::Deleting, OperationView::DeleteRecord { id: self.job.id })
            } else {
                self.fail(ProcessorError::Publish)
            },
            (Stage::Deleting, EventView::Deleted { ok }) => if ok {
                Step {
                    next: Model { stage: Stage::Done, outcome: Some(Ok(())), ..self },
                    command: CommandView::Finish { outcome: Ok(()), workspace: self.workspace },
                }
            } else {
                self.fail(ProcessorError::RecordDelete)
            },
            _ => self.ignore(),
        }
    }

    /// The transition function of the machine.
    ///
    /// * Once the job has ended, nothing changes any more.
    /// * The deadline, where the job has one, ends the job whenever it
    ///   passes before the job has ended.
    /// * While a renewal of the lease is in flight, the pipeline rests: the
    ///   report of the operation in flight is kept, not acted on.  A
    ///   renewal that succeeded lets the job go on, with the report that
    ///   was kept where there is one; a renewal that failed ends the job,
    ///   since a worker that cannot prove liveness must not go on claiming
    ///   progress.
    /// * Otherwise a tick orders a renewal, and the end of the operation in
    ///   flight moves the pipeline on.
    pub open spec fn transition(self, event: EventView) -> Step {
        if !self.live() {
            self.ignore()
        } else if self.refreshing {
            match event {
                EventView::Refreshed { ok } => if ok {
                    let resumed = Model { refreshing: false, held: None, ..self };
                    match self.held {
                        Some(report) => resumed.advance(report),
                        None => Step { next: resumed, command: CommandView::Resume },
                    }
                } else {
                    self.fail(ProcessorError::LeaseRefresh)
                },
                EventView::DeadlineElapsed => if self.job.task.limits is Some {
                    self.fail(ProcessorError::TimeLimitExceeded)
                } else {
                    self.ignore()
                },
                _ => if self.held is None && self.awaits(event) {
                    Step { next: Model { held: Some(event), ..self }, command: CommandView::Held }
                } else {
                    self.ignore()
                },
            }
        } else {
            match event {
                EventView::Tick => Step {
                    next: Model { refreshing: true, ..self },
                    command: CommandView::RefreshLease { id: self.job.id },
                },
                EventView::Refreshed { .. } => self.ignore(),
                EventView::DeadlineElapsed => if self.job.task.limits is Some {
                    self.fail(ProcessorError::TimeLimitExceeded)
                } else {
                    self.ignore()
                },
                _ => self.advance(event),
            }
        }
    }
}

/// What a single transition does to the end of the job: the machine
/// declares the job ended exactly when the transition ends it, with the
/// outcome the state then holds and for the workspace the state holds; and
/// no transition touches the job or the workspace.
pub proof fn lemma_step_finish(model: Model, event: EventView)
    ensures
        ({
            let step = model.transition(event);
            &&& step.command is Finish <==> model.live() && !step.next.live()
            &&& step.command matches CommandView::Finish { outcome, workspace } ==> workspace
                == model.workspace && step.next.outcome == Some(outcome)
            &&& step.next.workspace == model.workspace
            &&& step.next.job == model.job
        }),
{
    reveal(Model::advance);
}

/// What the pipeline answers: it orders an operation, ends the job, or
/// ignores the event; and it ignores exactly what it does not wait for.
/// It neither starts nor ends a renewal.
pub proof fn lemma_advance_answers(model: Model, event: EventView)
    ensures
        ({
            let step = model.advance(event);
            &&& step.command is Perform || step.command is Finish || step.command is Ignored
            &&& step.command is Ignored <==> !model.awaits(event)
            &&& step.next.refreshing == model.refreshing
            &&& step.next.held == model.held
        }),
{
    reveal(Model::advance);
}

/// What a single transition does to the pipeline: it never steps back;
/// an operation is ordered by entering its stage; and only an upload is
/// ordered from within its own stage, for the variant after the one that
/// was just stored.
pub proof fn lemma_step_perform(model: Model, event: EventView)
    requires
        model.inv(),
    ensures
        ({
            let step = model.transition(event);
            &&& model.stage.rank() <= step.next.stage.rank()
            &&& model.uploaded <= step.next.uploaded
            &&& step.command matches CommandView::Perform(operation) ==> {
                &&& operation.position() == step.next.stage.rank()
                &&& model.stage.rank() == operation.position() ==> model.stage == Stage::Uploading
                &&& operation matches OperationView::Upload { index, .. } ==> {
                    &&& index == step.next.uploaded
                    &&& model.stage == Stage::Uploading ==> index == model.uploaded + 1
                }
            }
        }),
{
    reveal(Model::advance);
}

/// What a single transition says in an upload and in the completion
/// event: an upload is for a variant the backend produced, under that
/// variant's key and with its content type; the event goes to the task's
/// subject and describes every variant.  Once the variants are there, no
/// transition changes them.
pub proof fn lemma_step_names(model: Model, event: EventView)
    requires
        model.inv(),
    ensures
        ({
            let step = model.transition(event);
            let variants = step.next.variants;
            &&& model.stage.rank() >= Stage::Uploading.rank() ==> variants == model.variants
            &&& step.command matches CommandView::Perform(
                OperationView::Upload { index, key, content_type },
            ) ==> {
                &&& index < variants.len()
                &&& key == storage_key(model.prefix(), variants[index as int].request)
                &&& content_type == variants[index as int].request.format.content_type_text()
            }
            &&& step.command matches CommandView::Perform(
                OperationView::Publish { subject, event: notice },
            ) ==> {
                &&& subject == model.job.task.callback_subject
                &&& notice == completion_event(model.job.id, model.prefix(), variants)
            }
        }),
{
    reveal(Model::advance);
}

/// Every transition keeps what holds of every state.
pub proof fn lemma_transition_keeps_inv(model: Model, event: EventView)
    requires
        model.inv(),
    ensures
        model.transition(event).next.inv(),
{
    reveal(Model::advance);
}

} // verus!
