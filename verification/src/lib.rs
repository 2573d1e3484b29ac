//! The per-job execution engine of an image-processing worker.
//!
//! A worker claims a job, fetches its source object into a job-scoped
//! directory, has a decoder backend transform it, uploads every output
//! variant, announces the result with one completion event and deletes the
//! job's durable record.  Meanwhile it renews the job's lease on a fixed
//! period and may be cut short by a deadline.
//!
//! The engine here holds every decision of that lifecycle and none of its
//! input or output: [`engine::machine::Engine`] is a state machine that is fed what
//! happened in the outside world and answers with what is to be done next.
//! A driver performs the commands and reports back.

pub mod transport;
pub mod error;
pub mod format;
pub mod ident;
pub mod job;
pub mod path;
pub mod variant;
pub mod event;
pub mod engine;
