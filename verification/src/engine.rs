//! The job orchestrator as a state machine.
//!
//! One job is driven from its claim to a terminal outcome by three
//! concerns that race: the renewal of its lease on every tick, an optional
//! deadline, and the pipeline itself: create the workspace, fetch and
//! classify the input, transform it, upload every variant, publish the
//! completion event, delete the durable record.
//!
//! * [`protocol`] is what the machine is told and what it answers.
//! * [`model`] is the machine as mathematics: its state and its one
//!   transition function.
//! * [`machine`] is the executable machine, which follows the model step
//!   for step.
//! * [`ledger`] reads off a whole run what was ordered and what was
//!   confirmed.
//! * [`laws`] proves what holds of every run.

pub mod protocol;
pub mod model;
pub mod machine;
pub mod ledger;
pub mod laws;




