//! The ways in which a job can fail.

use vstd::prelude::*;
use crate::transport::TransportError;

verus! {

/// Why a job ended without success.  Every failure is final for the
/// engine: no stage is tried again, and the durable record of a failed job
/// is left as it is for whoever reclaims it.
#[derive(Clone, Copy, Debug, PartialEq, Eq, Structural)]
pub enum ProcessorError {
    /// The job's directory could not be created.
    DirectoryCreate,
    /// The input file could not be created; it must not exist beforehand.
    FileCreate,
    /// The source object could not be fetched.
    Download(TransportError),
    /// The fetched input could not be read back for classification.
    FileFormat,
    /// The input's content is of a format that no decoder backend takes.
    /// The engine keeps the name of the format it found.
    UnsupportedInputFormat,
    /// The decoder backend ran and reported a failure.
    Backend,
    /// The blocking transform could not be scheduled, or ended without a
    /// result.
    BlockingTaskSpawn,
    /// An output variant could not be stored.
    Upload(TransportError),
    /// The completion event could not be published.
    Publish,
    /// The lease on the job could not be renewed.
    LeaseRefresh,
    /// The durable record could not be deleted after the event went out.
    RecordDelete,
    /// The job ran into its deadline.
    TimeLimitExceeded,
}

/// The broad classes of failure, by what an operator would do about them.
#[derive(Clone, Copy, Debug, PartialEq, Eq, Structural)]
pub enum ErrorClass {
    /// A local directory or file could not be made.
    LocalResource,
    /// A transfer to or from a remote service failed.
    RemoteTransport,
    /// The input is not something the engine can work on.
    Data,
    /// The transform failed or could not run.
    Compute,
    /// The outputs are stored, but the job could not be brought to its
    /// end: the event or the deletion of the record failed.
    Completion,
    /// Liveness could not be proven.
    Liveness,
    /// The job was too slow.
    Deadline,
}

impl ProcessorError {
    /// The class a failure belongs to.
    pub open spec fn class_of(self) -> ErrorClass {
        match self {
            ProcessorError::DirectoryCreate | ProcessorError::FileCreate => ErrorClass::LocalResource,
            ProcessorError::Download(_) | ProcessorError::Upload(_) => ErrorClass::RemoteTransport,
            ProcessorError::Publish | ProcessorError::RecordDelete => ErrorClass::Completion,
            ProcessorError::FileFormat | ProcessorError::UnsupportedInputFormat => ErrorClass::Data,
            ProcessorError::Backend | ProcessorError::BlockingTaskSpawn => ErrorClass::Compute,
            ProcessorError::LeaseRefresh => ErrorClass::Liveness,
            ProcessorError::TimeLimitExceeded => ErrorClass::Deadline,
        }
    }

    /// Classifies the failure.
    pub fn class(&self) -> (class: ErrorClass)
        ensures
            class == self.class_of(),
    {
        match self {
            ProcessorError::DirectoryCreate | ProcessorError::FileCreate => ErrorClass::LocalResource,
            ProcessorError::Download(_) | ProcessorError::Upload(_) => ErrorClass::RemoteTransport,
            ProcessorError::Publish | ProcessorError::RecordDelete => ErrorClass::Completion,
            ProcessorError::FileFormat | ProcessorError::UnsupportedInputFormat => ErrorClass::Data,
            ProcessorError::Backend | ProcessorError::BlockingTaskSpawn => ErrorClass::Compute,
            ProcessorError::LeaseRefresh => ErrorClass::Liveness,
            ProcessorError::TimeLimitExceeded => ErrorClass::Deadline,
        }
    }
}

} // verus!
