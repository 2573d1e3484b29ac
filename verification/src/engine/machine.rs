//! The executable machine.

use vstd::prelude::*;
use vstd::string::*;
use crate::engine::model::{initial, lemma_transition_keeps_inv, Model, Stage};
use crate::engine::protocol::{Command, Event, Operation, TransformOutcome};
use crate::error::ProcessorError;
use crate::event::make_completion_event;
use crate::format::{detect_name, DecoderBackend, InputFormat};
use crate::job::Job;
use crate::path::{input_file, workspace_dir};
use crate::transport::judge_response;
use crate::variant::{make_result_prefix, variants_view, Variant};

verus! {

/// The orchestrator of one job.  It is fed events with [`Engine::step`]
/// and answers each with a command; it does no input or output itself.
pub struct Engine {
    job: Job,
    workspace: String,
    stage: Stage,
    refreshing: bool,
    held: Option<Event>,
    detected: Option<String>,
    variants: Vec<Variant>,
    uploaded: usize,
    outcome: Option<Result<(), ProcessorError>>,
}

impl View for Engine {
    type V = Model;

    closed spec fn view(&self) -> Model {
        Model {
            job: self.job@,
            workspace: self.workspace@,
            stage: self.stage,
            refreshing: self.refreshing,
            held: match self.held {
                Some(report) => Some(report@),
                None => None,
            },
            detected: match self.detected {
                Some(name) => Some(name@),
                None => None,
            },
            variants: variants_view(self.variants@),
            uploaded: self.uploaded as nat,
            outcome: self.outcome,
        }
    }
}

impl Engine {
    /// Takes over a claimed job.  Its workspace will lie below
    /// `parent_directory`, in a directory named by the job's identifier.
    pub fn new(job: Job, parent_directory: &str) -> (engine: Engine)
        ensures
            engine@ == initial(job@, parent_directory@),
            engine@.inv(),
    {
        let workspace = workspace_dir(parent_directory, job.id);
        let engine = Engine {
            job,
            workspace,
            stage: Stage::Idle,
            refreshing: false,
            held: None,
            detected: None,
            variants: Vec::new(),
            uploaded: 0,
            outcome: None,
        };
        assert(engine@.variants =~= Seq::empty());
        engine
    }

    /// The job that is being worked on.
    pub fn job(&self) -> (job: &Job)
        ensures
            job@ == self@.job,
    {
        &self.job
    }

    /// The directory that holds everything local to the job.
    pub fn workspace(&self) -> (path: &str)
        ensures
            path@ == self@.workspace,
    {
        self.workspace.as_str()
    }

    /// How far the pipeline has come.
    pub fn stage(&self) -> (stage: Stage)
        ensures
            stage == self@.stage,
    {
        self.stage
    }

    /// Whether a renewal of the lease is in flight.
    pub fn is_refreshing(&self) -> (refreshing: bool)
        ensures
            refreshing == self@.refreshing,
    {
        self.refreshing
    }

    /// The outcome of the job, once it has ended.
    pub fn outcome(&self) -> (outcome: Option<Result<(), ProcessorError>>)
        ensures
            outcome == self@.outcome,
    {
        self.outcome
    }

    /// The variants the backend produced, for the driver to take the
    /// bytes of an upload from.
    pub fn variants(&self) -> (variants: &Vec<Variant>)
        ensures
            variants_view(variants@) == self@.variants,
    {
        &self.variants
    }

    /// How many of the variants, from the first on, are stored.
    pub fn uploaded(&self) -> (count: usize)
        ensures
            count == self@.uploaded,
    {
        self.uploaded
    }

    /// The name of the format that was found in the input, once it was
    /// read: what a job was refused for, where it was refused for its
    /// format.
    pub fn detected_format(&self) -> (name: Option<&str>)
        ensures
            name is Some == self@.detected is Some,
            name matches Some(text) ==> Some(text@) == self@.detected,
    {
        match &self.detected {
            Some(name) => Some(name.as_str()),
            None => None,
        }
    }

    /// Whether a report is kept for the time after the renewal in flight.
    pub fn holds_report(&self) -> (held: bool)
        ensures
            held == self@.held is Some,
    {
        self.held.is_some()
    }

    fn awaits(&self, event: &Event) -> (awaited: bool)
        ensures
            awaited == self@.awaits(event@),
    {
        match (self.stage, event) {
            (Stage::Idle, Event::Begin) => true,
            (Stage::CreatingWorkspace, Event::WorkspaceCreated { .. }) => true,
            (Stage::CreatingInput, Event::InputCreated { .. }) => true,
            (Stage::Downloading, Event::Downloaded { .. }) => true,
            (Stage::Classifying, Event::InputRead { .. }) => true,
            (Stage::Transforming, Event::Transformed { .. }) => true,
            (Stage::Uploading, Event::Uploaded { .. }) => true,
            (Stage::Publishing, Event::Published { .. }) => true,
            (Stage::Deleting, Event::Deleted { .. }) => true,
            _ => false,
        }
    }

    fn fail(&mut self, error: ProcessorError) -> (command: Command)
        ensures
            final(self)@ == old(self)@.fail(error).next,
            command@ == old(self)@.fail(error).command,
    {
        self.outcome = Some(Err(error));
        Command::Finish { outcome: Err(error), workspace: self.workspace.clone() }
    }

    fn order(&mut self, stage: Stage, operation: Operation) -> (command: Command)
        ensures
            final(self)@ == old(self)@.order(stage, operation@).next,
            command@ == old(self)@.order(stage, operation@).command,
    {
        self.stage = stage;
        Command::Perform(operation)
    }

    fn after_upload(&mut self) -> (command: Command)
        ensures
            final(self)@ == old(self)@.after_upload().next,
            command@ == old(self)@.after_upload().command,
    {
        let prefix = make_result_prefix(self.job.task.output_prefix.as_str(), self.job.id);
        if self.uploaded < self.variants.len() {
            let variant = &self.variants[self.uploaded];
            let operation = Operation::Upload {
                index: self.uploaded,
                key: variant.url(prefix.as_str()),
                content_type: String::from_str(variant.content_type()),
            };
            self.order(Stage::Uploading, operation)
        } else {
            let operation = Operation::Publish {
                subject: self.job.task.callback_subject.clone(),
                event: make_completion_event(self.job.id, prefix.as_str(), &self.variants),
            };
            self.order(Stage::Publishing, operation)
        }
    }

    fn advance(&mut self, event: Event) -> (command: Command)
        requires
            old(self)@.inv(),
        ensures
            final(self)@ == old(self)@.advance(event@).next,
            command@ == old(self)@.advance(event@).command,
    {
        reveal(Model::advance);
        match (self.stage, event) {
            (Stage::Idle, Event::Begin) => {
                let operation = Operation::CreateWorkspace { path: self.workspace.clone() };
                self.order(Stage::CreatingWorkspace, operation)
            },
            (Stage::CreatingWorkspace, Event::WorkspaceCreated { ok }) => {
                if ok {
                    let operation = Operation::CreateInput {
                        path: input_file(self.workspace.as_str()),
                    };
                    self.order(Stage::CreatingInput, operation)
                } else {
                    self.fail(ProcessorError::DirectoryCreate)
                }
            },
            (Stage::CreatingInput, Event::InputCreated { ok }) => {
                if ok {
                    let operation = Operation::Download {
                        object: self.job.task.input_path.clone(),
                        destination: input_file(self.workspace.as_str()),
                    };
                    self.order(Stage::Downloading, operation)
                } else {
                    self.fail(ProcessorError::FileCreate)
                }
            },
            (Stage::Downloading, Event::Downloaded { response }) => {
                match judge_response(response) {
                    Ok(_) => {
                        let operation = Operation::ReadInput {
                            path: input_file(self.workspace.as_str()),
                        };
                        self.order(Stage::Classifying, operation)
                    },
                    Err(failure) => self.fail(ProcessorError::Download(failure)),
                }
            },
            (Stage::Classifying, Event::InputRead { content }) => {
                match content {
                    Some(bytes) => {
                        let name = detect_name(bytes.as_slice());
                        let format = InputFormat::from_name(name.as_str());
                        self.detected = Some(name);
                        match DecoderBackend::from_format(format) {
                            Ok(backend) => {
                                let operation = Operation::Transform {
                                    backend,
                                    input: input_file(self.workspace.as_str()),
                                };
                                self.order(Stage::Transforming, operation)
                            },
                            Err(error) => self.fail(error),
                        }
                    },
                    None => self.fail(ProcessorError::FileFormat),
                }
            },
            (Stage::Transforming, Event::Transformed { outcome }) => {
                match outcome {
                    TransformOutcome::Produced(variants) => {
                        self.variants = variants;
                        self.uploaded = 0;
                        self.after_upload()
                    },
                    TransformOutcome::Failed => self.fail(ProcessorError::Backend),
                    TransformOutcome::NotScheduled => self.fail(ProcessorError::BlockingTaskSpawn),
                }
            },
            (Stage::Uploading, Event::Uploaded { response }) => {
                match judge_response(response) {
                    Ok(_) => {
                        let produced: usize = self.variants.len();
                        assert(self.uploaded < produced) by {
                            assert(self@.uploaded < self@.variants.len());
                        }
                        self.uploaded = self.uploaded + 1;
                        self.after_upload()
                    },
                    Err(failure) => self.fail(ProcessorError::Upload(failure)),
                }
            },
            (Stage::Publishing, Event::Published { ok }) => {
                if ok {
                    let operation = Operation::DeleteRecord { id: self.job.id };
                    self.order(Stage::Deleting, operation)
                } else {
                    self.fail(ProcessorError::Publish)
                }
            },
            (Stage::Deleting, Event::Deleted { ok }) => {
                if ok {
                    self.stage = Stage::Done;
                    self.outcome = Some(Ok(()));
                    Command::Finish { outcome: Ok(()), workspace: self.workspace.clone() }
                } else {
                    self.fail(ProcessorError::RecordDelete)
                }
            },
            _ => Command::Ignored,
        }
    }

    /// Takes an event and answers with the command that follows from it.
    /// The machine moves exactly as its model does, and what holds of
    /// every state goes on holding.
    pub fn step(&mut self, event: Event) -> (command: Command)
        requires
            old(self)@.inv(),
        ensures
            final(self)@ == old(self)@.transition(event@).next,
            command@ == old(self)@.transition(event@).command,
            final(self)@.inv(),
    {
        proof {
            lemma_transition_keeps_inv(self@, event@);
        }
        if self.outcome.is_some() {
            Command::Ignored
        } else if self.refreshing {
            match event {
                Event::Refreshed { ok } => {
                    if ok {
                        self.refreshing = false;
                        match self.held.take() {
                            Some(report) => self.advance(report),
                            None => Command::Resume,
                        }
                    } else {
                        self.fail(ProcessorError::LeaseRefresh)
                    }
                },
                Event::DeadlineElapsed => {
                    if self.job.task.limits.is_some() {
                        self.fail(ProcessorError::TimeLimitExceeded)
                    } else {
                        Command::Ignored
                    }
                },
                report => {
                    if self.held.is_none() && self.awaits(&report) {
                        self.held = Some(report);
                        Command::Held
                    } else {
                        Command::Ignored
                    }
                },
            }
        } else {
            match event {
                Event::Tick => {
                    self.refreshing = true;
                    Command::RefreshLease { id: self.job.id }
                },
                Event::Refreshed { .. } => Command::Ignored,
                Event::DeadlineElapsed => {
                    if self.job.task.limits.is_some() {
                        self.fail(ProcessorError::TimeLimitExceeded)
                    } else {
                        Command::Ignored
                    }
                },
                other => self.advance(other),
            }
        }
    }
}

} // verus!
