use kdash::config::QUEUE_CAPACITY;
use kdash::queue::RequestQueue;
use kdash::request::{ActionRequest, QueryRequest, Selection};
use kdash::state::{ApplicationState, Failure, Snapshot, WorkerKind};
use kdash::worker::{ActionEvent, ActionStep, ActionWorker, QueryAction, QueryEvent, QueryWorker};

const PODS: u64 = 1;
const NODES: u64 = 2;

fn list(kind: u64) -> QueryRequest {
    QueryRequest::List(Selection { kind, namespace: None, name: None })
}

fn pod(name: &str) -> Selection {
    Selection { kind: PODS, namespace: Some("default".to_string()), name: Some(name.to_string()) }
}

fn running_query_worker(state: &mut ApplicationState) -> QueryWorker {
    let mut worker = QueryWorker::new();
    assert_eq!(worker.step(state, QueryEvent::ClientReady), QueryAction::Receive);
    worker
}

fn running_action_worker(state: &mut ApplicationState) -> ActionWorker {
    let mut worker = ActionWorker::new();
    assert_eq!(worker.step(state, ActionEvent::ClientReady), ActionStep::Receive);
    worker
}

#[test]
fn query_worker_starts_by_waiting_for_its_client() {
    assert_eq!(QueryWorker::new(), QueryWorker::Starting);
    let mut state = ApplicationState::new(true, 20);
    let worker = running_query_worker(&mut state);
    assert_eq!(worker, QueryWorker::Idle);
}

#[test]
fn query_worker_without_client_reports_once_and_never_runs() {
    let mut state = ApplicationState::new(true, 20);
    let mut worker = QueryWorker::new();
    let action = worker.step(&mut state, QueryEvent::ClientFailed("no kubeconfig".to_string()));
    assert_eq!(action, QueryAction::Halt);
    assert_eq!(worker, QueryWorker::Failed);
    assert_eq!(
        *state.error(),
        Some(Failure::Client { worker: WorkerKind::Query, reason: "no kubeconfig".to_string() })
    );
    state.dismiss_error();
    assert_eq!(worker.step(&mut state, QueryEvent::Dequeued(list(PODS))), QueryAction::Halt);
    assert_eq!(worker.step(&mut state, QueryEvent::ClientReady), QueryAction::Halt);
    assert_eq!(
        worker.step(&mut state, QueryEvent::ClientFailed("again".to_string())),
        QueryAction::Halt
    );
    assert_eq!(worker, QueryWorker::Failed);
    assert_eq!(*state.error(), None);
    assert_eq!(state.snapshot(PODS), None);
}

#[test]
fn fetch_result_becomes_the_snapshot() {
    let mut state = ApplicationState::new(true, 20);
    let mut worker = running_query_worker(&mut state);
    assert_eq!(
        worker.step(&mut state, QueryEvent::Dequeued(list(PODS))),
        QueryAction::Fetch(list(PODS))
    );
    assert_eq!(worker, QueryWorker::Busy(list(PODS)));
    assert_eq!(state.snapshot(PODS), None);
    let action = worker.step(&mut state, QueryEvent::Fetched { data: "3 pods".to_string(), at: 42 });
    assert_eq!(action, QueryAction::Receive);
    assert_eq!(worker, QueryWorker::Idle);
    assert_eq!(
        state.snapshot(PODS),
        Some(&Snapshot { data: "3 pods".to_string(), refreshed_at: 42, error: None })
    );
    assert_eq!(*state.error(), None);
}

#[test]
fn failed_fetch_raises_the_banner_and_keeps_the_snapshot() {
    let mut state = ApplicationState::new(true, 20);
    state.set_snapshot(PODS, "old".to_string(), 1);
    let mut worker = running_query_worker(&mut state);
    worker.step(&mut state, QueryEvent::Dequeued(list(PODS)));
    let action = worker.step(&mut state, QueryEvent::FetchFailed("timeout".to_string()));
    assert_eq!(action, QueryAction::Receive);
    assert_eq!(worker, QueryWorker::Idle);
    assert_eq!(
        *state.error(),
        Some(Failure::Query { request: list(PODS), reason: "timeout".to_string() })
    );
    assert_eq!(
        state.snapshot(PODS),
        Some(&Snapshot { data: "old".to_string(), refreshed_at: 1, error: None })
    );
    assert_eq!(
        worker.step(&mut state, QueryEvent::Dequeued(list(NODES))),
        QueryAction::Fetch(list(NODES))
    );
}

#[test]
fn remote_calls_are_made_in_enqueue_order() {
    let mut state = ApplicationState::new(true, 20);
    let mut worker = running_query_worker(&mut state);
    let mut queue = RequestQueue::new(QUEUE_CAPACITY);
    let enqueued: Vec<QueryRequest> = vec![list(5), list(3), list(5), list(9), list(3), list(1)];
    for request in &enqueued {
        assert_eq!(queue.try_enqueue(request.clone()), Ok(()));
    }
    let mut called = Vec::new();
    let mut at = 0;
    while let Some(request) = queue.dequeue() {
        match worker.step(&mut state, QueryEvent::Dequeued(request)) {
            QueryAction::Fetch(call) => called.push(call),
            other => panic!("expected a fetch, got {:?}", other),
        }
        at += 1;
        let done = if at % 2 == 0 {
            QueryEvent::FetchFailed("down".to_string())
        } else {
            QueryEvent::Fetched { data: format!("data {}", at), at }
        };
        assert_eq!(worker.step(&mut state, done), QueryAction::Receive);
    }
    assert_eq!(called, enqueued);
}

#[test]
fn later_response_wins_over_earlier_one() {
    let mut state = ApplicationState::new(true, 20);
    let mut worker = running_query_worker(&mut state);
    worker.step(&mut state, QueryEvent::Dequeued(list(PODS)));
    worker.step(&mut state, QueryEvent::Fetched { data: "newer".to_string(), at: 100 });
    worker.step(&mut state, QueryEvent::Dequeued(list(PODS)));
    worker.step(&mut state, QueryEvent::Fetched { data: "stale".to_string(), at: 50 });
    assert_eq!(
        state.snapshot(PODS),
        Some(&Snapshot { data: "stale".to_string(), refreshed_at: 50, error: None })
    );
}

#[test]
fn query_worker_ignores_events_out_of_turn() {
    let mut state = ApplicationState::new(true, 20);
    let mut worker = QueryWorker::new();
    assert_eq!(worker.step(&mut state, QueryEvent::Dequeued(list(PODS))), QueryAction::Ignore);
    assert_eq!(worker.step(&mut state, QueryEvent::QueueClosed), QueryAction::Ignore);
    assert_eq!(worker, QueryWorker::Starting);
    worker.step(&mut state, QueryEvent::ClientReady);
    assert_eq!(
        worker.step(&mut state, QueryEvent::Fetched { data: "x".to_string(), at: 1 }),
        QueryAction::Ignore
    );
    assert_eq!(worker.step(&mut state, QueryEvent::FetchFailed("x".to_string())), QueryAction::Ignore);
    assert_eq!(worker.step(&mut state, QueryEvent::ClientReady), QueryAction::Ignore);
    assert_eq!(worker, QueryWorker::Idle);
    worker.step(&mut state, QueryEvent::Dequeued(list(PODS)));
    assert_eq!(worker.step(&mut state, QueryEvent::Dequeued(list(NODES))), QueryAction::Ignore);
    assert_eq!(worker.step(&mut state, QueryEvent::QueueClosed), QueryAction::Ignore);
    assert_eq!(worker, QueryWorker::Busy(list(PODS)));
    assert_eq!(state.snapshot(PODS), None);
    assert_eq!(*state.error(), None);
}

#[test]
fn closed_queue_stops_the_query_worker() {
    let mut state = ApplicationState::new(true, 20);
    let mut worker = running_query_worker(&mut state);
    assert_eq!(worker.step(&mut state, QueryEvent::QueueClosed), QueryAction::Halt);
    assert_eq!(worker, QueryWorker::Stopped);
    assert_eq!(worker.step(&mut state, QueryEvent::Dequeued(list(PODS))), QueryAction::Halt);
    assert_eq!(worker, QueryWorker::Stopped);
}

#[test]
fn request_kind_is_the_kind_of_its_target() {
    assert_eq!(list(7).kind(), 7);
    assert_eq!(QueryRequest::Get(pod("web")).kind(), PODS);
    assert_eq!(ActionRequest::Delete(pod("web")).kind(), PODS);
    assert_eq!(
        ActionRequest::Describe(Selection { kind: NODES, namespace: None, name: None }).kind(),
        NODES
    );
}

#[test]
fn follow_up_lists_the_kind_in_the_namespace_of_the_command() {
    assert_eq!(
        ActionRequest::Delete(pod("web")).follow_up(),
        QueryRequest::List(Selection {
            kind: PODS,
            namespace: Some("default".to_string()),
            name: None
        })
    );
    assert_eq!(
        ActionRequest::Describe(Selection { kind: NODES, namespace: None, name: None }).follow_up(),
        list(NODES)
    );
}

#[test]
fn command_is_run_one_at_a_time() {
    let mut state = ApplicationState::new(true, 20);
    let mut worker = running_action_worker(&mut state);
    let first = ActionRequest::Delete(pod("a"));
    let second = ActionRequest::Delete(pod("b"));
    assert_eq!(
        worker.step(&mut state, ActionEvent::Dequeued(first.clone())),
        ActionStep::Execute(first.clone())
    );
    assert_eq!(worker.step(&mut state, ActionEvent::Dequeued(second.clone())), ActionStep::Ignore);
    assert_eq!(worker, ActionWorker::Busy(first));
}

#[test]
fn successful_command_asks_for_a_refresh_of_its_kind() {
    let mut state = ApplicationState::new(true, 20);
    state.set_snapshot(PODS, "web, db".to_string(), 1);
    let mut actions = running_action_worker(&mut state);
    let mut queries = running_query_worker(&mut state);
    let mut query_queue = RequestQueue::new(QUEUE_CAPACITY);

    let command = ActionRequest::Delete(pod("web"));
    actions.step(&mut state, ActionEvent::Dequeued(command));
    let next = actions.step(&mut state, ActionEvent::Succeeded("pod web deleted".to_string()));
    let follow_up = match next {
        ActionStep::FollowUp(query) => query,
        other => panic!("expected a follow-up, got {:?}", other),
    };
    assert_eq!(follow_up.kind(), PODS);
    assert_eq!(actions, ActionWorker::Idle);
    assert_eq!(*state.notice(), Some("pod web deleted".to_string()));
    assert_eq!(state.snapshot(PODS).map(|s| s.data.as_str()), Some("web, db"));

    assert_eq!(query_queue.try_enqueue(follow_up), Ok(()));
    let request = query_queue.dequeue().unwrap();
    assert_eq!(
        queries.step(&mut state, QueryEvent::Dequeued(request.clone())),
        QueryAction::Fetch(request)
    );
    queries.step(&mut state, QueryEvent::Fetched { data: "db".to_string(), at: 2 });
    assert_eq!(
        state.snapshot(PODS),
        Some(&Snapshot { data: "db".to_string(), refreshed_at: 2, error: None })
    );
}

#[test]
fn failed_command_names_itself_on_the_banner_and_is_not_retried() {
    let mut state = ApplicationState::new(true, 20);
    let mut worker = running_action_worker(&mut state);
    let command = ActionRequest::Delete(pod("web"));
    worker.step(&mut state, ActionEvent::Dequeued(command.clone()));
    let next = worker.step(&mut state, ActionEvent::Failed("forbidden".to_string()));
    assert_eq!(next, ActionStep::Receive);
    assert_eq!(worker, ActionWorker::Idle);
    assert_eq!(
        *state.error(),
        Some(Failure::Action { request: command, reason: "forbidden".to_string() })
    );
    assert_eq!(*state.notice(), None);
}

#[test]
fn action_worker_without_client_reports_and_never_runs() {
    let mut state = ApplicationState::new(true, 20);
    let mut worker = ActionWorker::new();
    assert_eq!(worker, ActionWorker::Starting);
    assert_eq!(
        worker.step(&mut state, ActionEvent::ClientFailed("denied".to_string())),
        ActionStep::Halt
    );
    assert_eq!(
        *state.error(),
        Some(Failure::Client { worker: WorkerKind::Action, reason: "denied".to_string() })
    );
    assert_eq!(
        worker.step(&mut state, ActionEvent::Dequeued(ActionRequest::Delete(pod("web")))),
        ActionStep::Halt
    );
    assert_eq!(worker, ActionWorker::Failed);
}

#[test]
fn action_worker_ignores_events_out_of_turn_and_stops_on_a_closed_queue() {
    let mut state = ApplicationState::new(true, 20);
    let mut worker = ActionWorker::new();
    assert_eq!(worker.step(&mut state, ActionEvent::QueueClosed), ActionStep::Ignore);
    worker.step(&mut state, ActionEvent::ClientReady);
    assert_eq!(worker.step(&mut state, ActionEvent::Succeeded("x".to_string())), ActionStep::Ignore);
    assert_eq!(worker.step(&mut state, ActionEvent::Failed("x".to_string())), ActionStep::Ignore);
    assert_eq!(*state.notice(), None);
    assert_eq!(*state.error(), None);
    assert_eq!(worker.step(&mut state, ActionEvent::QueueClosed), ActionStep::Halt);
    assert_eq!(worker, ActionWorker::Stopped);
    assert_eq!(worker.step(&mut state, ActionEvent::ClientReady), ActionStep::Halt);
}
