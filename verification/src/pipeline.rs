//! How the pieces behave together: a queue in front of the query worker,
//! and a command followed by the fetch it asks for.

use vstd::prelude::*;
use crate::queue::{QueueOp, lemma_delivery_in_offer_order, offered, replay};
use crate::request::{ActionRequest, QueryRequest};
use crate::state::{Snapshot, StateView};
use crate::worker::{
    ActionEvent, ActionStep, ActionWorker, QueryAction, QueryEvent, QueryWorker, action_step,
    ends_fetch, lemma_fetches_follow_requests, query_step, serve,
};

verus! {

/// Remote calls are made in enqueue order. Whatever the producer and the
/// consumer of the query queue do, and in whatever order, the worker that
/// is handed the delivered requests makes its k-th remote call for the k-th
/// request that the queue took in.
pub proof fn lemma_calls_follow_enqueue_order(
    limit: nat,
    ops: Seq<QueueOp<QueryRequest>>,
    state: StateView,
    outcomes: Seq<QueryEvent>,
)
    requires
        outcomes.len() == replay(limit, ops).delivered.len(),
        forall|i: int| 0 <= i < outcomes.len() ==> ends_fetch(#[trigger] outcomes[i]),
    ensures
        replay(limit, ops).delivered.len() <= replay(limit, ops).accepted.len(),
        forall|k: int|
            #![trigger replay(limit, ops).accepted[k]]
            0 <= k < replay(limit, ops).delivered.len() ==> serve(
                QueryWorker::Idle,
                state,
                replay(limit, ops).delivered,
                outcomes,
            ).2[2 * k] == QueryAction::Fetch(replay(limit, ops).accepted[k]),
{
    let history = replay(limit, ops);
    lemma_delivery_in_offer_order(limit, ops);
    lemma_fetches_follow_requests(state, history.delivered, outcomes);
    assert(history.accepted.len() == history.delivered.len() + history.waiting.len());
    assert forall|k: int|
        #![trigger history.accepted[k]]
        0 <= k < history.delivered.len() implies serve(
        QueryWorker::Idle,
        state,
        history.delivered,
        outcomes,
    ).2[2 * k] == QueryAction::Fetch(history.accepted[k]) by {
        assert(history.delivered[k] == (history.delivered + history.waiting)[k]);
    }
}

/// A command that succeeds is followed by a fresh fetch of the kind it
/// touched. The action worker writes no snapshot itself and asks for the
/// fetch; the query queue takes the request in at its back while it has
/// room; and once the query worker has served it, the snapshot of that kind
/// is what the fetch returned, whatever was stored before.
pub proof fn lemma_command_then_refresh(
    state: StateView,
    command: ActionRequest,
    confirmation: String,
    queue: Seq<QueryRequest>,
    limit: nat,
    data: String,
    at: u64,
)
    requires
        queue.len() < limit,
    ensures
        ({
            let acted = action_step(
                ActionWorker::Busy(command),
                state,
                ActionEvent::Succeeded(confirmation),
            );
            let follow_up = command.follow_up_spec();
            let asked = query_step(QueryWorker::Idle, acted.1, QueryEvent::Dequeued(follow_up));
            let fetched = query_step(asked.0, asked.1, QueryEvent::Fetched { data, at });
            &&& acted.2 == ActionStep::FollowUp(follow_up)
            &&& follow_up.target().kind == command.target().kind
            &&& acted.1.snapshots == state.snapshots
            &&& offered(queue, limit, follow_up) == queue.push(follow_up)
            &&& asked.2 == QueryAction::Fetch(follow_up)
            &&& fetched.1.snapshots.contains_key(command.target().kind)
            &&& fetched.1.snapshots[command.target().kind] == Snapshot {
                data,
                refreshed_at: at,
                error: None,
            }
        }),
{
}

} // verus!
