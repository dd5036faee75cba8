//! The two engines that serve one request at a time: the query worker, which
//! fetches, and the action worker, which runs commands. Each is a state
//! machine: the caller reports what happened, the machine updates the shared
//! state where that is due and answers with what to do next. Remote work is
//! only ever ordered, never done, inside a step.

use vstd::prelude::*;
use crate::request::{ActionRequest, QueryRequest};
use crate::state::{ApplicationState, Failure, StateView, WorkerKind};

verus! {

/// Where the query worker stands.
#[derive(Debug, PartialEq, Eq)]
pub enum QueryWorker {
    /// Waiting for its remote client to be established.
    Starting,
    /// Waiting for the next request.
    Idle,
    /// One fetch is under way.
    Busy(QueryRequest),
    /// The client could not be established; the worker never ran.
    Failed,
    /// The queue was closed.
    Stopped,
}

/// What the query worker is told.
#[derive(Debug, PartialEq, Eq)]
pub enum QueryEvent {
    ClientReady,
    ClientFailed(String),
    /// The queue handed out its oldest request.
    Dequeued(QueryRequest),
    /// The fetch under way returned `data` at time `at`.
    Fetched { data: String, at: u64 },
    /// The fetch under way failed.
    FetchFailed(String),
    QueueClosed,
}

/// What the query worker's caller is to do next.
#[derive(Debug, PartialEq, Eq)]
pub enum QueryAction {
    /// Wait for the queue to hand out a request.
    Receive,
    /// Make the remote call for this request.
    Fetch(QueryRequest),
    /// End the worker.
    Halt,
    /// Nothing: the event does not belong to where the worker stands.
    Ignore,
}

/// One step of the query worker: where it stands next, the shared state
/// after the step, and what its caller is to do.
pub open spec fn query_step(worker: QueryWorker, state: StateView, event: QueryEvent) -> (
    QueryWorker,
    StateView,
    QueryAction,
) {
    match worker {
        QueryWorker::Starting => match event {
            QueryEvent::ClientReady => (QueryWorker::Idle, state, QueryAction::Receive),
            QueryEvent::ClientFailed(reason) => (
                QueryWorker::Failed,
                state.failed(Failure::Client { worker: WorkerKind::Query, reason }),
                QueryAction::Halt,
            ),
            _ => (worker, state, QueryAction::Ignore),
        },
        QueryWorker::Idle => match event {
            QueryEvent::Dequeued(request) => (
                QueryWorker::Busy(request),
                state,
                QueryAction::Fetch(request),
            ),
            QueryEvent::QueueClosed => (QueryWorker::Stopped, state, QueryAction::Halt),
            _ => (worker, state, QueryAction::Ignore),
        },
        QueryWorker::Busy(request) => match event {
            QueryEvent::Fetched { data, at } => (
                QueryWorker::Idle,
                state.stored(request.target().kind, data, at),
                QueryAction::Receive,
            ),
            QueryEvent::FetchFailed(reason) => (
                QueryWorker::Idle,
                state.failed(Failure::Query { request, reason }),
                QueryAction::Receive,
            ),
            _ => (worker, state, QueryAction::Ignore),
        },
        QueryWorker::Failed => (worker, state, QueryAction::Halt),
        QueryWorker::Stopped => (worker, state, QueryAction::Halt),
    }
}

impl QueryWorker {
    /// A worker that has yet to establish its client.
    pub fn new() -> (worker: QueryWorker)
        ensures
            worker == QueryWorker::Starting,
    {
        QueryWorker::Starting
    }

    /// Takes one event: moves the worker on, writes the result of a finished
    /// fetch into `state` (the data on success, the banner on failure, never
    /// both) and says what to do next.
    pub fn step(&mut self, state: &mut ApplicationState, event: QueryEvent) -> (action: QueryAction)
        ensures
            (*final(self), final(state)@, action) == query_step(*old(self), old(state)@, event),
    {
        let mut current = QueryWorker::Stopped;
        core::mem::swap(&mut current, self);
        match current {
            QueryWorker::Starting => match event {
                QueryEvent::ClientReady => {
                    *self = QueryWorker::Idle;
                    QueryAction::Receive
                },
                QueryEvent::ClientFailed(reason) => {
                    state.set_error(Failure::Client { worker: WorkerKind::Query, reason });
                    *self = QueryWorker::Failed;
                    QueryAction::Halt
                },
                _ => {
                    *self = QueryWorker::Starting;
                    QueryAction::Ignore
                },
            },
            QueryWorker::Idle => match event {
                QueryEvent::Dequeued(request) => {
                    let call = request.clone();
                    *self = QueryWorker::Busy(request);
                    QueryAction::Fetch(call)
                },
                QueryEvent::QueueClosed => {
                    *self = QueryWorker::Stopped;
                    QueryAction::Halt
                },
                _ => {
                    *self = QueryWorker::Idle;
                    QueryAction::Ignore
                },
            },
            QueryWorker::Busy(request) => match event {
                QueryEvent::Fetched { data, at } => {
                    state.set_snapshot(request.kind(), data, at);
                    *self = QueryWorker::Idle;
                    QueryAction::Receive
                },
                QueryEvent::FetchFailed(reason) => {
                    state.set_error(Failure::Query { request, reason });
                    *self = QueryWorker::Idle;
                    QueryAction::Receive
                },
                _ => {
                    *self = QueryWorker::Busy(request);
                    QueryAction::Ignore
                },
            },
            QueryWorker::Failed => {
                *self = QueryWorker::Failed;
                QueryAction::Halt
            },
            QueryWorker::Stopped => {
                *self = QueryWorker::Stopped;
                QueryAction::Halt
            },
        }
    }
}

/// Where the action worker stands.
#[derive(Debug, PartialEq, Eq)]
pub enum ActionWorker {
    /// Waiting for its remote client to be established.
    Starting,
    /// Waiting for the next command.
    Idle,
    /// One command is under way.
    Busy(ActionRequest),
    /// The client could not be established; the worker never ran.
    Failed,
    /// The queue was closed.
    Stopped,
}

/// What the action worker is told.
#[derive(Debug, PartialEq, Eq)]
pub enum ActionEvent {
    ClientReady,
    ClientFailed(String),
    /// The queue handed out its oldest command.
    Dequeued(ActionRequest),
    /// The command under way succeeded; the text confirms it.
    Succeeded(String),
    /// The command under way failed.
    Failed(String),
    QueueClosed,
}

/// What the action worker's caller is to do next.
#[derive(Debug, PartialEq, Eq)]
pub enum ActionStep {
    /// Wait for the queue to hand out a command.
    Receive,
    /// Run this command against the cluster.
    Execute(ActionRequest),
    /// Put this fetch on the query queue, then wait for the next command.
    FollowUp(QueryRequest),
    /// End the worker.
    Halt,
    /// Nothing: the event does not belong to where the worker stands.
    Ignore,
}

/// One step of the action worker: where it stands next, the shared state
/// after the step, and what its caller is to do.
pub open spec fn action_step(worker: ActionWorker, state: StateView, event: ActionEvent) -> (
    ActionWorker,
    StateView,
    ActionStep,
) {
    match worker {
        ActionWorker::Starting => match event {
            ActionEvent::ClientReady => (ActionWorker::Idle, state, ActionStep::Receive),
            ActionEvent::ClientFailed(reason) => (
                ActionWorker::Failed,
                state.failed(Failure::Client { worker: WorkerKind::Action, reason }),
                ActionStep::Halt,
            ),
            _ => (worker, state, ActionStep::Ignore),
        },
        ActionWorker::Idle => match event {
            ActionEvent::Dequeued(request) => (
                ActionWorker::Busy(request),
                state,
                ActionStep::Execute(request),
            ),
            ActionEvent::QueueClosed => (ActionWorker::Stopped, state, ActionStep::Halt),
            _ => (worker, state, ActionStep::Ignore),
        },
        ActionWorker::Busy(request) => match event {
            ActionEvent::Succeeded(confirmation) => (
                ActionWorker::Idle,
                state.confirmed(confirmation),
                ActionStep::FollowUp(request.follow_up_spec()),
            ),
            ActionEvent::Failed(reason) => (
                ActionWorker::Idle,
                state.failed(Failure::Action { request, reason }),
                ActionStep::Receive,
            ),
            _ => (worker, state, ActionStep::Ignore),
        },
        ActionWorker::Failed => (worker, state, ActionStep::Halt),
        ActionWorker::Stopped => (worker, state, ActionStep::Halt),
    }
}

impl ActionWorker {
    /// A worker that has yet to establish its client.
    pub fn new() -> (worker: ActionWorker)
        ensures
            worker == ActionWorker::Starting,
    {
        ActionWorker::Starting
    }

    /// Takes one event: moves the worker on, records the outcome of a
    /// finished command in `state` and says what to do next. A command that
    /// succeeded leaves the snapshots alone and asks for a fresh fetch of
    /// the kind it touched; one that failed is not tried again.
    pub fn step(&mut self, state: &mut ApplicationState, event: ActionEvent) -> (next: ActionStep)
        ensures
            (*final(self), final(state)@, next) == action_step(*old(self), old(state)@, event),
    {
        let mut current = ActionWorker::Stopped;
        core::mem::swap(&mut current, self);
        match current {
            ActionWorker::Starting => match event {
                ActionEvent::ClientReady => {
                    *self = ActionWorker::Idle;
                    ActionStep::Receive
                },
                ActionEvent::ClientFailed(reason) => {
                    state.set_error(Failure::Client { worker: WorkerKind::Action, reason });
                    *self = ActionWorker::Failed;
                    ActionStep::Halt
                },
                _ => {
                    *self = ActionWorker::Starting;
                    ActionStep::Ignore
                },
            },
            ActionWorker::Idle => match event {
                ActionEvent::Dequeued(request) => {
                    let command = request.clone();
                    *self = ActionWorker::Busy(request);
                    ActionStep::Execute(command)
                },
                ActionEvent::QueueClosed => {
                    *self = ActionWorker::Stopped;
                    ActionStep::Halt
                },
                _ => {
                    *self = ActionWorker::Idle;
                    ActionStep::Ignore
                },
            },
            ActionWorker::Busy(request) => match event {
                ActionEvent::Succeeded(confirmation) => {
                    let query = request.follow_up();
                    state.set_notice(confirmation);
                    *self = ActionWorker::Idle;
                    ActionStep::FollowUp(query)
                },
                ActionEvent::Failed(reason) => {
                    state.set_error(Failure::Action { request, reason });
                    *self = ActionWorker::Idle;
                    ActionStep::Receive
                },
                _ => {
                    *self = ActionWorker::Busy(request);
                    ActionStep::Ignore
                },
            },
            ActionWorker::Failed => {
                *self = ActionWorker::Failed;
                ActionStep::Halt
            },
            ActionWorker::Stopped => {
                *self = ActionWorker::Stopped;
                ActionStep::Halt
            },
        }
    }
}

/// Whether an event reports the end of a fetch.
pub open spec fn ends_fetch(event: QueryEvent) -> bool {
    event is Fetched || event is FetchFailed
}

/// An idle worker that is handed `requests` one after the other, the fetch
/// for each ending as `outcomes` says before the next request is handed
/// out: where the worker stands in the end, the shared state, and every
/// answer the worker gave, in order.
pub open spec fn serve(
    worker: QueryWorker,
    state: StateView,
    requests: Seq<QueryRequest>,
    outcomes: Seq<QueryEvent>,
) -> (QueryWorker, StateView, Seq<QueryAction>)
    decreases requests.len(),
{
    if requests.len() == 0 {
        (worker, state, Seq::empty())
    } else {
        let before = serve(worker, state, requests.drop_last(), outcomes.drop_last());
        let asked = query_step(before.0, before.1, QueryEvent::Dequeued(requests.last()));
        let done = query_step(asked.0, asked.1, outcomes.last());
        (done.0, done.1, before.2.push(asked.2).push(done.2))
    }
}

/// The query worker makes its remote calls in the order in which the
/// requests reach it, one call for each request and none for anything
/// else: it neither reorders nor merges requests, and it is idle again
/// after the last.
pub proof fn lemma_fetches_follow_requests(
    state: StateView,
    requests: Seq<QueryRequest>,
    outcomes: Seq<QueryEvent>,
)
    requires
        requests.len() == outcomes.len(),
        forall|i: int| 0 <= i < outcomes.len() ==> ends_fetch(#[trigger] outcomes[i]),
    ensures
        serve(QueryWorker::Idle, state, requests, outcomes).0 == QueryWorker::Idle,
        serve(QueryWorker::Idle, state, requests, outcomes).2.len() == 2 * requests.len(),
        forall|i: int|
            #![trigger requests[i]]
            0 <= i < requests.len() ==> {
                &&& serve(QueryWorker::Idle, state, requests, outcomes).2[2 * i]
                    == QueryAction::Fetch(requests[i])
                &&& serve(QueryWorker::Idle, state, requests, outcomes).2[2 * i + 1]
                    == QueryAction::Receive
            },
    decreases requests.len(),
{
    if requests.len() > 0 {
        let n = requests.len() as int;
        lemma_fetches_follow_requests(state, requests.drop_last(), outcomes.drop_last());
        let before = serve(QueryWorker::Idle, state, requests.drop_last(), outcomes.drop_last());
        let run = serve(QueryWorker::Idle, state, requests, outcomes);
        assert(ends_fetch(outcomes[n - 1]));
        assert forall|i: int| #![trigger requests[i]] 0 <= i < n implies {
            &&& run.2[2 * i] == QueryAction::Fetch(requests[i])
            &&& run.2[2 * i + 1] == QueryAction::Receive
        } by {
            if i < n - 1 {
                assert(requests.drop_last()[i] == requests[i]);
                assert(run.2[2 * i] == before.2[2 * i]);
                assert(run.2[2 * i + 1] == before.2[2 * i + 1]);
            }
        }
    }
}

/// A step of the query worker that orders a remote call writes nothing into
/// the shared state, and a step that writes orders none: no write is ever
/// spread around a call.
pub proof fn lemma_fetch_is_ordered_without_a_write(
    worker: QueryWorker,
    state: StateView,
    event: QueryEvent,
)
    ensures
        query_step(worker, state, event).2 is Fetch ==> query_step(worker, state, event).1
            == state,
        query_step(worker, state, event).1 != state ==> query_step(worker, state, event).2
            == QueryAction::Receive || query_step(worker, state, event).2 == QueryAction::Halt,
{
}

/// A fetch that fails puts up the banner and leaves every snapshot as it
/// was; the worker goes on to the next request.
pub proof fn lemma_failed_fetch_keeps_snapshots(
    request: QueryRequest,
    state: StateView,
    reason: String,
)
    ensures
        query_step(QueryWorker::Busy(request), state, QueryEvent::FetchFailed(reason)).0
            == QueryWorker::Idle,
        query_step(QueryWorker::Busy(request), state, QueryEvent::FetchFailed(reason)).1.snapshots
            == state.snapshots,
        query_step(QueryWorker::Busy(request), state, QueryEvent::FetchFailed(reason)).1.banner
            == Some(Failure::Query { request, reason }),
        query_step(QueryWorker::Busy(request), state, QueryEvent::FetchFailed(reason)).2
            == QueryAction::Receive,
{
}

/// A worker whose client could not be established reports that once and
/// never runs: the failure is on the banner, and from then on no event
/// makes the worker fetch or write.
pub proof fn lemma_worker_without_client_never_runs(
    state: StateView,
    reason: String,
    later: StateView,
    event: QueryEvent,
)
    ensures
        query_step(QueryWorker::Starting, state, QueryEvent::ClientFailed(reason)) == (
            QueryWorker::Failed,
            state.failed(Failure::Client { worker: WorkerKind::Query, reason }),
            QueryAction::Halt,
        ),
        query_step(QueryWorker::Failed, later, event) == (
            QueryWorker::Failed,
            later,
            QueryAction::Halt,
        ),
{
}

/// A step of the action worker that orders a command writes nothing into
/// the shared state, and no step of it ever touches a snapshot: what a
/// command changed is learnt by fetching again.
pub proof fn lemma_command_is_ordered_without_a_write(
    worker: ActionWorker,
    state: StateView,
    event: ActionEvent,
)
    ensures
        action_step(worker, state, event).2 is Execute ==> action_step(worker, state, event).1
            == state,
        action_step(worker, state, event).1.snapshots == state.snapshots,
{
}

/// A command that fails names itself on the banner and is not tried again:
/// the worker is idle and waits for the next command.
pub proof fn lemma_failed_command_is_final(request: ActionRequest, state: StateView, reason: String)
    ensures
        action_step(ActionWorker::Busy(request), state, ActionEvent::Failed(reason)) == (
            ActionWorker::Idle,
            state.failed(Failure::Action { request, reason }),
            ActionStep::Receive,
        ),
{
}

} // verus!
