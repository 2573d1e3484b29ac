//! A claimed job: its identity and what is asked of the worker.

use vstd::prelude::*;

verus! {

/// The optional ceilings on a job.
#[derive(Clone, Copy, Debug, PartialEq, Eq, Structural)]
pub struct Limits {
    /// The wall-clock time the whole job may take, in milliseconds.
    pub max_processing_time_ms: u64,
}

/// What is to be done for a job.
#[derive(Clone, Debug, PartialEq, Eq)]
pub struct Task {
    /// Where the input lies in the source object store.
    pub input_path: String,
    /// What the keys of the results begin with, after `result/`.
    pub output_prefix: String,
    /// The subject the completion event is published to.
    pub callback_subject: String,
    /// The job's limits; `None` leaves it unbounded.
    pub limits: Option<Limits>,
}

/// A task as a mathematical value.
pub struct TaskView {
    pub input_path: Seq<char>,
    pub output_prefix: Seq<char>,
    pub callback_subject: Seq<char>,
    pub limits: Option<Limits>,
}

impl View for Task {
    type V = TaskView;

    open spec fn view(&self) -> TaskView {
        TaskView {
            input_path: self.input_path@,
            output_prefix: self.output_prefix@,
            callback_subject: self.callback_subject@,
            limits: self.limits,
        }
    }
}

/// A job as claimed from the durable queue.
#[derive(Clone, Debug, PartialEq, Eq)]
pub struct Job {
    /// The job's identity: 128 bits, sortable.
    pub id: u128,
    pub task: Task,
}

/// A job as a mathematical value.
pub struct JobView {
    pub id: u128,
    pub task: TaskView,
}

impl View for Job {
    type V = JobView;

    open spec fn view(&self) -> JobView {
        JobView { id: self.id, task: self.task@ }
    }
}

impl JobView {
    /// The deadline of the job in milliseconds from its start, if it has
    /// one.
    pub open spec fn deadline_ms(self) -> Option<u64> {
        match self.task.limits {
            Some(limits) => Some(limits.max_processing_time_ms),
            None => None,
        }
    }
}

impl Job {
    /// The deadline of the job in milliseconds from its start, if it has
    /// one.
    pub fn deadline_ms(&self) -> (deadline: Option<u64>)
        ensures
            deadline == self@.deadline_ms(),
    {
        match self.task.limits {
            Some(limits) => Some(limits.max_processing_time_ms),
            None => None,
        }
    }
}

} // verus!
