//! Whole runs of the machine, and the account of what a run has ordered
//! and what it has seen confirmed.

use vstd::prelude::*;
use crate::engine::model::Model;
use crate::engine::protocol::{CommandView, EventView, OperationView, TransformOutcomeView};
use crate::transport::response_verdict;

verus! {

/// The state the machine is in after it has taken `events`, one after the
/// other, from the state `start`.
pub open spec fn run(start: Model, events: Seq<EventView>) -> Model
    decreases events.len(),
{
    if events.len() == 0 {
        start
    } else {
        run(start, events.drop_last()).transition(events.last()).next
    }
}

/// The state the machine is in before it takes the event at `k`.
pub open spec fn state_at(start: Model, events: Seq<EventView>, k: int) -> Model
    recommends
        0 <= k <= events.len(),
{
    run(start, events.take(k))
}

/// The command the machine gives in answer to the event at `k`.
pub open spec fn command_at(start: Model, events: Seq<EventView>, k: int) -> CommandView
    recommends
        0 <= k < events.len(),
{
    state_at(start, events, k).transition(events[k]).command
}

/// Counts of what was ordered and of what was reported back and taken.
/// A report counts as taken when the pipeline acts on it: at once while
/// the pipeline runs, and on the renewal's return where it was kept.
pub struct Ledger {
    /// Ends of the transform that brought the job's variants.
    pub transforms_completed: nat,
    /// Uploads the machine has ordered.
    pub uploads_ordered: nat,
    /// Uploads that were answered with a status of the success class,
    /// the report taken.
    pub uploads_confirmed: nat,
    /// Uploads that were answered otherwise, or not at all.
    pub uploads_rejected: nat,
    /// Publications of the completion event the machine has ordered.
    pub publishes_ordered: nat,
    /// Publications that were reported as done, the report taken.
    pub publishes_confirmed: nat,
    /// Deletions of the durable record the machine has ordered.
    pub deletes_ordered: nat,
    /// Deletions that were reported as done, the report taken.
    pub deletes_confirmed: nat,
    /// Times the machine has declared the job ended and ordered the
    /// removal of its workspace.
    pub finishes: nat,
}

/// `1` where `condition` holds, else `0`.
pub open spec fn one_if(condition: bool) -> nat {
    if condition {
        1
    } else {
        0
    }
}

impl Ledger {
    /// The account of a run without events.
    pub open spec fn empty() -> Ledger {
        Ledger {
            transforms_completed: 0,
            uploads_ordered: 0,
            uploads_confirmed: 0,
            uploads_rejected: 0,
            publishes_ordered: 0,
            publishes_confirmed: 0,
            deletes_ordered: 0,
            deletes_confirmed: 0,
            finishes: 0,
        }
    }

    /// The account after one more step, in which the pipeline acted on
    /// `report`, where it acted on one, and the machine gave `command`.
    pub open spec fn record(self, report: Option<EventView>, command: CommandView) -> Ledger {
        Ledger {
            transforms_completed: self.transforms_completed + one_if(
                report matches Some(
                    EventView::Transformed { outcome: TransformOutcomeView::Produced(_) },
                ),
            ),
            uploads_ordered: self.uploads_ordered + one_if(
                command matches CommandView::Perform(OperationView::Upload { .. }),
            ),
            uploads_confirmed: self.uploads_confirmed + one_if(
                report matches Some(EventView::Uploaded { response }) && response_verdict(
                    response,
                ) is Ok,
            ),
            uploads_rejected: self.uploads_rejected + one_if(
                report matches Some(EventView::Uploaded { response }) && response_verdict(
                    response,
                ) is Err,
            ),
            publishes_ordered: self.publishes_ordered + one_if(
                command matches CommandView::Perform(OperationView::Publish { .. }),
            ),
            publishes_confirmed: self.publishes_confirmed + one_if(
                report == Some(EventView::Published { ok: true }),
            ),
            deletes_ordered: self.deletes_ordered + one_if(
                command matches CommandView::Perform(OperationView::DeleteRecord { .. }),
            ),
            deletes_confirmed: self.deletes_confirmed + one_if(
                report == Some(EventView::Deleted { ok: true }),
            ),
            finishes: self.finishes + one_if(command is Finish),
        }
    }
}

/// The account of the run that takes `events` from `start`.
pub open spec fn ledger(start: Model, events: Seq<EventView>) -> Ledger
    decreases events.len(),
{
    if events.len() == 0 {
        Ledger::empty()
    } else {
        ledger(start, events.drop_last()).record(
            run(start, events.drop_last()).taken(events.last()),
            run(start, events.drop_last()).transition(events.last()).command,
        )
    }
}

} // verus!
