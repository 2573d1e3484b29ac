//! What holds of every run of the machine.

use vstd::prelude::*;
use crate::engine::ledger::{command_at, ledger, one_if, run, state_at, Ledger};
use crate::engine::model::{
    initial, lemma_advance_answers, lemma_step_finish, lemma_step_names, lemma_step_perform, lemma_transition_keeps_inv,
    Model, Stage,
};
use crate::engine::protocol::{CommandView, EventView, OperationView};
use crate::error::ProcessorError;
use crate::job::JobView;
use crate::path::workspace_path;

verus! {

/// How the account of a run and the state at its end belong together.
pub open spec fn accounts(state: Model, ledger: Ledger) -> bool {
    let produced = state.variants.len();
    let rank = state.stage.rank();
    &&& state.inv()
    &&& ledger.transforms_completed == one_if(rank >= Stage::Uploading.rank())
    &&& ledger.uploads_ordered == if rank < Stage::Uploading.rank() {
        0
    } else if state.uploaded < produced {
        state.uploaded + 1
    } else {
        produced
    }
    &&& ledger.uploads_confirmed == state.uploaded
    &&& ledger.uploads_rejected == one_if(
        state.outcome matches Some(Err(ProcessorError::Upload(_))),
    )
    &&& ledger.publishes_ordered == one_if(rank >= Stage::Publishing.rank())
    &&& ledger.publishes_confirmed == one_if(rank >= Stage::Deleting.rank())
    &&& ledger.deletes_ordered == one_if(rank >= Stage::Deleting.rank())
    &&& ledger.deletes_confirmed == one_if(state.stage == Stage::Done)
    &&& ledger.finishes == one_if(!state.live())
}

proof fn lemma_step_accounts(state: Model, ledger: Ledger, event: EventView)
    requires
        accounts(state, ledger),
    ensures
        accounts(
            state.transition(event).next,
            ledger.record(state.taken(event), state.transition(event).command),
        ),
{
    reveal(Model::advance);
    lemma_transition_keeps_inv(state, event);
}

/// At the end of every run that starts in a state with an empty account,
/// the account and the state belong together.
pub proof fn lemma_run_accounts(start: Model, events: Seq<EventView>)
    requires
        accounts(start, Ledger::empty()),
    ensures
        accounts(run(start, events), ledger(start, events)),
    decreases events.len(),
{
    if events.len() > 0 {
        lemma_run_accounts(start, events.drop_last());
        lemma_step_accounts(
            run(start, events.drop_last()),
            ledger(start, events.drop_last()),
            events.last(),
        );
    }
}

/// The state before the event at `k + 1` is the one the transition on the
/// event at `k` leads to.
pub proof fn lemma_state_at_next(start: Model, events: Seq<EventView>, k: int)
    requires
        0 <= k < events.len(),
    ensures
        state_at(start, events, k + 1) == state_at(start, events, k).transition(events[k]).next,
{
    let upto = events.take(k + 1);
    assert(upto.drop_last() =~= events.take(k));
    assert(upto.last() == events[k]);
}

/// The state before the end of the events is the state of the whole run.
pub proof fn lemma_state_at_end(start: Model, events: Seq<EventView>)
    ensures
        state_at(start, events, events.len() as int) == run(start, events),
{
    assert(events.take(events.len() as int) =~= events);
}

/// Once the job has ended, the state stays as it is.
pub proof fn lemma_ended_stays(start: Model, events: Seq<EventView>, k: int, j: int)
    requires
        0 <= k <= j <= events.len(),
        !state_at(start, events, k).live(),
    ensures
        state_at(start, events, j) == state_at(start, events, k),
    decreases j - k,
{
    if k < j {
        lemma_ended_stays(start, events, k, j - 1);
        lemma_state_at_next(start, events, j - 1);
    }
}

/// Whether `event` can end a renewal in flight or the job during one:
/// the renewal's return can, and the deadline can where the job has one.
pub open spec fn ends_renewal(job: JobView, event: EventView) -> bool {
    event is Refreshed || (event is DeadlineElapsed && job.task.limits is Some)
}

/// While a renewal of the lease is in flight and neither its return nor
/// the deadline of a job that has one is among the events, the job stays
/// in work, the renewal in flight and the pipeline at rest: nothing
/// changes but the report that is kept, and nothing is ordered.
pub proof fn lemma_renewal_holds(start: Model, events: Seq<EventView>, k: int, j: int)
    requires
        0 <= k <= j <= events.len(),
        state_at(start, events, k).live(),
        state_at(start, events, k).refreshing,
        forall|i: int| k <= i < j ==> !ends_renewal(start.job, #[trigger] events[i]),
    ensures
        state_at(start, events, j) == (Model {
            held: state_at(start, events, j).held,
            ..state_at(start, events, k)
        }),
        forall|i: int|
            k <= i < j ==> {
                ||| #[trigger] command_at(start, events, i) == CommandView::Held
                ||| command_at(start, events, i) == CommandView::Ignored
            },
    decreases j - k,
{
    if k < j {
        lemma_renewal_holds(start, events, k, j - 1);
        lemma_state_at_next(start, events, j - 1);
        lemma_workspace_is_fixed(start, events.take(j - 1));
        assert(!ends_renewal(start.job, events[j - 1]));
    }
}

/// Along a run the pipeline never steps back, and the count of stored
/// variants never falls.
pub proof fn lemma_progress_is_monotone(
    job: JobView,
    parent: Seq<char>,
    events: Seq<EventView>,
    i: int,
    j: int,
)
    requires
        0 <= i <= j <= events.len(),
    ensures
        state_at(initial(job, parent), events, i).stage.rank() <= state_at(
            initial(job, parent),
            events,
            j,
        ).stage.rank(),
        state_at(initial(job, parent), events, i).uploaded <= state_at(
            initial(job, parent),
            events,
            j,
        ).uploaded,
    decreases j - i,
{
    if i < j {
        let start = initial(job, parent);
        lemma_progress_is_monotone(job, parent, events, i, j - 1);
        lemma_state_at_next(start, events, j - 1);
        lemma_run_accounts(start, events.take(j - 1));
        lemma_step_perform(state_at(start, events, j - 1), events[j - 1]);
    }
}

/// **Stages in order.**  The operations of a run are ordered in the order
/// of the pipeline: of two operations, the later one never belongs to an
/// earlier stage.  Only uploads share a stage, and they are ordered by
/// rising index, so no variant is uploaded twice and none before the
/// transform has ended.  Each operation is ordered once the one before
/// it was reported as done, as the machine takes one report at a time.
pub proof fn law_stages_are_sequential(
    job: JobView,
    parent: Seq<char>,
    events: Seq<EventView>,
    i: int,
    j: int,
)
    requires
        0 <= i < j < events.len(),
        command_at(initial(job, parent), events, i) is Perform,
        command_at(initial(job, parent), events, j) is Perform,
    ensures
        ({
            let earlier = command_at(initial(job, parent), events, i)->Perform_0;
            let later = command_at(initial(job, parent), events, j)->Perform_0;
            &&& earlier.position() <= later.position()
            &&& earlier.position() == later.position() ==> {
                &&& earlier matches OperationView::Upload { index: first, .. }
                &&& later matches OperationView::Upload { index: second, .. }
                &&& first < second
            }
        }),
{
    let start = initial(job, parent);
    lemma_state_at_next(start, events, i);
    lemma_state_at_next(start, events, j);
    lemma_run_accounts(start, events.take(i));
    lemma_run_accounts(start, events.take(j));
    lemma_step_perform(state_at(start, events, i), events[i]);
    lemma_step_perform(state_at(start, events, j), events[j]);
    lemma_progress_is_monotone(job, parent, events, i + 1, j);
}

/// Once the transform has brought the variants, they stay as they are.
pub proof fn lemma_variants_are_fixed(
    job: JobView,
    parent: Seq<char>,
    events: Seq<EventView>,
    i: int,
    j: int,
)
    requires
        0 <= i <= j <= events.len(),
        state_at(initial(job, parent), events, i).stage.rank() >= Stage::Uploading.rank(),
    ensures
        state_at(initial(job, parent), events, j).variants == state_at(
            initial(job, parent),
            events,
            i,
        ).variants,
    decreases j - i,
{
    if i < j {
        let start = initial(job, parent);
        lemma_variants_are_fixed(job, parent, events, i, j - 1);
        lemma_progress_is_monotone(job, parent, events, i, j - 1);
        lemma_state_at_next(start, events, j - 1);
        lemma_run_accounts(start, events.take(j - 1));
        lemma_step_names(state_at(start, events, j - 1), events[j - 1]);
    }
}

/// **The event names what was stored.**  Where a run orders an upload and
/// the completion event, the event goes to the task's subject, carries
/// the job's identifier, and its record for the uploaded variant names the
/// very key the upload was ordered under.
pub proof fn law_event_names_the_stored_keys(
    job: JobView,
    parent: Seq<char>,
    events: Seq<EventView>,
    j: int,
    k: int,
)
    requires
        0 <= j < events.len(),
        0 <= k < events.len(),
        command_at(initial(job, parent), events, j) matches CommandView::Perform(
            OperationView::Upload { .. },
        ),
        command_at(initial(job, parent), events, k) matches CommandView::Perform(
            OperationView::Publish { .. },
        ),
    ensures
        j < k,
        ({
            let upload = command_at(initial(job, parent), events, j)->Perform_0;
            let publish = command_at(initial(job, parent), events, k)->Perform_0;
            &&& upload matches OperationView::Upload { index, key, .. }
            &&& publish matches OperationView::Publish { subject, event }
            &&& subject == job.task.callback_subject
            &&& event.job_id == job.id
            &&& index < event.variants.len()
            &&& event.variants[index as int].path == key
        }),
{
    let start = initial(job, parent);
    if k < j {
        law_stages_are_sequential(job, parent, events, k, j);
    }
    lemma_state_at_next(start, events, j);
    lemma_state_at_next(start, events, k);
    lemma_run_accounts(start, events.take(j));
    lemma_run_accounts(start, events.take(k));
    lemma_workspace_is_fixed(start, events.take(j));
    lemma_workspace_is_fixed(start, events.take(k));
    lemma_step_perform(state_at(start, events, j), events[j]);
    lemma_step_names(state_at(start, events, j), events[j]);
    lemma_step_names(state_at(start, events, k), events[k]);
    lemma_variants_are_fixed(job, parent, events, j + 1, k + 1);
}

/// **Nothing after the end.**  Once a run has declared the job ended, it
/// ignores whatever is reported and orders nothing more.
pub proof fn law_nothing_after_the_end(
    job: JobView,
    parent: Seq<char>,
    events: Seq<EventView>,
    k: int,
    j: int,
)
    requires
        0 <= k < j < events.len(),
        command_at(initial(job, parent), events, k) is Finish,
    ensures
        command_at(initial(job, parent), events, j) == CommandView::Ignored,
        state_at(initial(job, parent), events, j + 1) == state_at(
            initial(job, parent),
            events,
            k + 1,
        ),
{
    let start = initial(job, parent);
    lemma_state_at_next(start, events, k);
    lemma_step_finish(state_at(start, events, k), events[k]);
    lemma_ended_stays(start, events, k + 1, j);
    lemma_ended_stays(start, events, k + 1, j + 1);
}

/// **Atomicity of effects.**  In every run, for every job:
///
/// * the completion event is ordered at most once, and it is ordered if
///   and only if the transform has brought the variants and every one of
///   them was stored with a status of the success class;
/// * the durable record is ordered to be deleted if and only if the
///   publication of the event was reported as done, hence at most once;
/// * the job's outcome is success if and only if the deletion was
///   reported as done.
///
/// So a run that ends in success has stored every variant, published the
/// event and deleted the record, each exactly once.
///
/// Between an order and its confirmation lies the outside world: a
/// publication or a deletion that is ordered can still fail, or be
/// outrun by the deadline or a failed renewal, also where its report
/// has come in and is kept during that renewal.  The machine never moves
/// on without a confirmation it has taken.
pub proof fn law_effects_are_atomic(job: JobView, parent: Seq<char>, events: Seq<EventView>)
    ensures
        ({
            let end = run(initial(job, parent), events);
            let account = ledger(initial(job, parent), events);
            &&& account.publishes_ordered <= 1
            &&& account.publishes_ordered == 1 <==> account.transforms_completed == 1
                && account.uploads_confirmed == end.variants.len()
            &&& account.publishes_confirmed <= account.publishes_ordered
            &&& account.deletes_ordered == account.publishes_confirmed
            &&& account.deletes_confirmed <= account.deletes_ordered
            &&& end.outcome == Some(Ok::<(), ProcessorError>(())) <==> account.deletes_confirmed
                == 1
            &&& account.uploads_ordered <= end.variants.len()
            &&& account.uploads_confirmed <= account.uploads_ordered
            &&& end.outcome == Some(Ok::<(), ProcessorError>(())) ==> {
                &&& account.uploads_confirmed == end.variants.len()
                &&& account.uploads_rejected == 0
                &&& account.publishes_confirmed == 1
                &&& account.deletes_confirmed == 1
            }
        }),
{
    lemma_run_accounts(initial(job, parent), events);
}

/// **No partial publish.**  In a run in which an upload was answered with
/// a status outside the success class, or not at all, the completion
/// event is never ordered, the durable record is never ordered to be
/// deleted, no further upload is ordered, and the job ends with the
/// upload's failure.
pub proof fn law_no_partial_publish(job: JobView, parent: Seq<char>, events: Seq<EventView>)
    requires
        ledger(initial(job, parent), events).uploads_rejected >= 1,
    ensures
        ledger(initial(job, parent), events).publishes_ordered == 0,
        ledger(initial(job, parent), events).publishes_confirmed == 0,
        ledger(initial(job, parent), events).deletes_ordered == 0,
        ledger(initial(job, parent), events).uploads_rejected == 1,
        ledger(initial(job, parent), events).uploads_ordered == ledger(
            initial(job, parent),
            events,
        ).uploads_confirmed + 1,
        run(initial(job, parent), events).outcome matches Some(Err(ProcessorError::Upload(_))),
{
    lemma_run_accounts(initial(job, parent), events);
}

/// **Cleanup on every outcome.**  A run declares the job ended exactly
/// once if the job has ended, and never before.  Whenever it does, on
/// success as on any failure, it orders the removal of the job's own
/// workspace, and the outcome it declares is the one the run ends with.
pub proof fn law_cleanup_is_ordered(
    job: JobView,
    parent: Seq<char>,
    events: Seq<EventView>,
    k: int,
)
    requires
        0 <= k < events.len(),
    ensures
        ledger(initial(job, parent), events).finishes == one_if(
            !run(initial(job, parent), events).live(),
        ),
        command_at(initial(job, parent), events, k) is Finish <==> state_at(
            initial(job, parent),
            events,
            k,
        ).live() && !state_at(initial(job, parent), events, k + 1).live(),
        command_at(initial(job, parent), events, k) matches CommandView::Finish {
            outcome,
            workspace,
        } ==> workspace == workspace_path(parent, job.id) && run(
            initial(job, parent),
            events,
        ).outcome == Some(outcome),
{
    let start = initial(job, parent);
    lemma_run_accounts(start, events);
    lemma_workspace_is_fixed(start, events.take(k));
    lemma_state_at_next(start, events, k);
    lemma_step_finish(state_at(start, events, k), events[k]);
    if command_at(start, events, k) is Finish {
        lemma_ended_stays(start, events, k + 1, events.len() as int);
        lemma_state_at_end(start, events);
    }
}

/// The workspace and the job of a run never change.
pub proof fn lemma_workspace_is_fixed(start: Model, events: Seq<EventView>)
    ensures
        run(start, events).workspace == start.workspace,
        run(start, events).job == start.job,
    decreases events.len(),
{
    if events.len() > 0 {
        lemma_workspace_is_fixed(start, events.drop_last());
        lemma_step_finish(run(start, events.drop_last()), events.last());
    }
}

/// **Deadline precedence.**  Where the job has a deadline and the deadline
/// passes while the job is still being worked on, be a renewal of the
/// lease in flight or not, the job's outcome is the deadline's failure,
/// never a success, whatever is reported afterwards, and the machine
/// orders nothing more.
pub proof fn law_deadline_precedence(
    job: JobView,
    parent: Seq<char>,
    events: Seq<EventView>,
    k: int,
)
    requires
        0 <= k < events.len(),
        job.task.limits is Some,
        events[k] == EventView::DeadlineElapsed,
        state_at(initial(job, parent), events, k).live(),
    ensures
        command_at(initial(job, parent), events, k) == (CommandView::Finish {
            outcome: Err(ProcessorError::TimeLimitExceeded),
            workspace: workspace_path(parent, job.id),
        }),
        run(initial(job, parent), events).outcome == Some(
            Err::<(), ProcessorError>(ProcessorError::TimeLimitExceeded),
        ),
        forall|j: int|
            k < j < events.len() ==> #[trigger] command_at(initial(job, parent), events, j)
                == CommandView::Ignored,
{
    let start = initial(job, parent);
    lemma_workspace_is_fixed(start, events.take(k));
    lemma_state_at_next(start, events, k);
    lemma_ended_stays(start, events, k + 1, events.len() as int);
    lemma_state_at_end(start, events);
    assert forall|j: int| k < j < events.len() implies #[trigger] command_at(start, events, j)
        == CommandView::Ignored by {
        lemma_ended_stays(start, events, k + 1, j);
    }
}

/// **Liveness gating.**  Where the tick at `k` orders a renewal of the
/// lease and the renewal's return, at `m`, reports a failure, the job's
/// outcome is the renewal's failure, and from the tick on the machine
/// orders no operation of the pipeline: nothing is fetched, transformed,
/// uploaded, published or deleted any more.  This holds unless the
/// deadline of a job that has one passes between the tick and the
/// renewal's return: then the deadline has ended the job first.
pub proof fn law_liveness_gating(
    job: JobView,
    parent: Seq<char>,
    events: Seq<EventView>,
    k: int,
    m: int,
)
    requires
        0 <= k < m < events.len(),
        command_at(initial(job, parent), events, k) is RefreshLease,
        forall|i: int| k < i < m ==> !ends_renewal(job, #[trigger] events[i]),
        events[m] == (EventView::Refreshed { ok: false }),
    ensures
        run(initial(job, parent), events).outcome == Some(
            Err::<(), ProcessorError>(ProcessorError::LeaseRefresh),
        ),
        forall|j: int|
            k <= j < events.len() ==> !(#[trigger] command_at(initial(job, parent), events, j)
                is Perform),
{
    let start = initial(job, parent);
    lemma_state_at_next(start, events, k);
    lemma_advance_answers(state_at(start, events, k), events[k]);
    if state_at(start, events, k).held is Some {
        lemma_advance_answers(
            Model { refreshing: false, held: None, ..state_at(start, events, k) },
            state_at(start, events, k).held->0,
        );
    }
    lemma_renewal_holds(start, events, k + 1, m);
    lemma_state_at_next(start, events, m);
    lemma_ended_stays(start, events, m + 1, events.len() as int);
    lemma_state_at_end(start, events);
    assert forall|j: int| k <= j < events.len() implies !(#[trigger] command_at(
        start,
        events,
        j,
    ) is Perform) by {
        if j > m {
            lemma_ended_stays(start, events, m + 1, j);
        }
    }
}

} // verus!
