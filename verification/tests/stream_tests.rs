use kdash::request::{Selection, StreamKind, StreamRequest};
use kdash::state::{ApplicationState, Failure, Snapshot, WorkerKind};
use kdash::stream::{StreamAction, StreamEvent, StreamHandle, StreamPhase, StreamWorker};

const PODS: u64 = 1;
const NODES: u64 = 2;

fn target(kind: u64, name: &str) -> Selection {
    Selection { kind, namespace: Some("default".to_string()), name: Some(name.to_string()) }
}

fn start(kind: StreamKind, target: Selection) -> StreamEvent {
    StreamEvent::Dequeued(StreamRequest::Start { kind, target })
}

fn stop(handle: u64) -> StreamEvent {
    StreamEvent::Dequeued(StreamRequest::Stop { handle })
}

fn handle(id: u64, kind: StreamKind, target: Selection) -> StreamHandle {
    StreamHandle { id, kind, target, error: None }
}

fn running(state: &mut ApplicationState) -> StreamWorker {
    let mut worker = StreamWorker::new();
    assert_eq!(worker.step(state, StreamEvent::ClientReady), StreamAction::Continue);
    worker
}

#[test]
fn stream_worker_starts_without_feeds() {
    let worker = StreamWorker::new();
    assert_eq!(worker.phase(), StreamPhase::Starting);
    assert!(worker.handles().is_empty());
}

#[test]
fn stream_worker_without_client_reports_and_never_runs() {
    let mut state = ApplicationState::new(true, 20);
    let mut worker = StreamWorker::new();
    assert_eq!(
        worker.step(&mut state, StreamEvent::ClientFailed("no route".to_string())),
        StreamAction::Halt
    );
    assert_eq!(worker.phase(), StreamPhase::Failed);
    assert_eq!(
        *state.error(),
        Some(Failure::Client { worker: WorkerKind::Stream, reason: "no route".to_string() })
    );
    assert_eq!(
        worker.step(&mut state, start(StreamKind::Logs, target(PODS, "web"))),
        StreamAction::Halt
    );
    assert!(worker.handles().is_empty());
}

#[test]
fn requests_before_the_client_is_ready_are_ignored() {
    let mut state = ApplicationState::new(true, 20);
    let mut worker = StreamWorker::new();
    assert_eq!(
        worker.step(&mut state, start(StreamKind::Logs, target(PODS, "web"))),
        StreamAction::Ignore
    );
    assert_eq!(worker.step(&mut state, StreamEvent::QueueClosed), StreamAction::Ignore);
    assert_eq!(worker.phase(), StreamPhase::Starting);
    assert!(worker.handles().is_empty());
}

#[test]
fn each_start_opens_a_feed_under_a_new_handle() {
    let mut state = ApplicationState::new(true, 20);
    let mut worker = running(&mut state);
    assert_eq!(
        worker.step(&mut state, start(StreamKind::Logs, target(PODS, "web"))),
        StreamAction::Open(handle(0, StreamKind::Logs, target(PODS, "web")))
    );
    assert_eq!(
        worker.step(&mut state, start(StreamKind::Watch, target(NODES, "n1"))),
        StreamAction::Open(handle(1, StreamKind::Watch, target(NODES, "n1")))
    );
    assert_eq!(
        worker.step(&mut state, start(StreamKind::Logs, target(PODS, "web"))),
        StreamAction::Open(handle(2, StreamKind::Logs, target(PODS, "web")))
    );
    assert_eq!(
        *worker.handles(),
        vec![
            handle(0, StreamKind::Logs, target(PODS, "web")),
            handle(1, StreamKind::Watch, target(NODES, "n1")),
            handle(2, StreamKind::Logs, target(PODS, "web")),
        ]
    );
    assert_eq!(*state.error(), None);
}

#[test]
fn stop_closes_the_named_feed_only() {
    let mut state = ApplicationState::new(true, 20);
    let mut worker = running(&mut state);
    worker.step(&mut state, start(StreamKind::Logs, target(PODS, "a")));
    worker.step(&mut state, start(StreamKind::Logs, target(PODS, "b")));
    worker.step(&mut state, start(StreamKind::Logs, target(PODS, "c")));
    assert_eq!(worker.step(&mut state, stop(1)), StreamAction::Close(1));
    assert_eq!(
        *worker.handles(),
        vec![
            handle(0, StreamKind::Logs, target(PODS, "a")),
            handle(2, StreamKind::Logs, target(PODS, "c")),
        ]
    );
}

#[test]
fn stopping_an_unknown_feed_is_a_no_op() {
    let mut state = ApplicationState::new(true, 20);
    let mut worker = running(&mut state);
    worker.step(&mut state, start(StreamKind::Logs, target(PODS, "a")));
    assert_eq!(worker.step(&mut state, stop(17)), StreamAction::Continue);
    assert_eq!(worker.step(&mut state, stop(0)), StreamAction::Close(0));
    assert_eq!(worker.step(&mut state, stop(0)), StreamAction::Continue);
    assert!(worker.handles().is_empty());
    assert_eq!(*state.error(), None);
    assert_eq!(worker.phase(), StreamPhase::Running);
}

#[test]
fn handles_are_not_used_again_after_a_stop() {
    let mut state = ApplicationState::new(true, 20);
    let mut worker = running(&mut state);
    worker.step(&mut state, start(StreamKind::Logs, target(PODS, "a")));
    worker.step(&mut state, stop(0));
    assert_eq!(
        worker.step(&mut state, start(StreamKind::Logs, target(PODS, "b"))),
        StreamAction::Open(handle(1, StreamKind::Logs, target(PODS, "b")))
    );
}

#[test]
fn log_lines_are_appended_in_order_of_arrival() {
    let mut state = ApplicationState::new(true, 20);
    let mut worker = running(&mut state);
    worker.step(&mut state, start(StreamKind::Logs, target(PODS, "a")));
    worker.step(&mut state, start(StreamKind::Logs, target(PODS, "b")));
    for (feed, line) in [(0, "a1"), (1, "b1"), (0, "a2")] {
        let event = StreamEvent::Data { handle: feed, payload: line.to_string(), at: 1 };
        assert_eq!(worker.step(&mut state, event), StreamAction::Continue);
    }
    assert_eq!(*state.logs(), vec!["a1".to_string(), "b1".to_string(), "a2".to_string()]);
    assert_eq!(state.snapshot(PODS), None);
}

#[test]
fn watch_update_replaces_the_snapshot_of_the_watched_kind() {
    let mut state = ApplicationState::new(true, 20);
    state.set_snapshot(NODES, "old".to_string(), 1);
    let mut worker = running(&mut state);
    worker.step(&mut state, start(StreamKind::Watch, target(NODES, "n1")));
    let event = StreamEvent::Data { handle: 0, payload: "n1 ready".to_string(), at: 9 };
    assert_eq!(worker.step(&mut state, event), StreamAction::Continue);
    assert_eq!(
        state.snapshot(NODES),
        Some(&Snapshot { data: "n1 ready".to_string(), refreshed_at: 9, error: None })
    );
    assert!(state.logs().is_empty());
}

#[test]
fn update_of_a_closed_feed_is_dropped() {
    let mut state = ApplicationState::new(true, 20);
    let mut worker = running(&mut state);
    worker.step(&mut state, start(StreamKind::Logs, target(PODS, "a")));
    worker.step(&mut state, stop(0));
    let late = StreamEvent::Data { handle: 0, payload: "late".to_string(), at: 1 };
    assert_eq!(worker.step(&mut state, late), StreamAction::Ignore);
    let broken = StreamEvent::Broken { handle: 0, reason: "late".to_string() };
    assert_eq!(worker.step(&mut state, broken), StreamAction::Ignore);
    assert!(state.logs().is_empty());
    assert_eq!(*state.error(), None);
}

#[test]
fn failure_of_one_feed_leaves_the_others_open_and_the_worker_running() {
    let mut state = ApplicationState::new(true, 20);
    let mut worker = running(&mut state);
    worker.step(&mut state, start(StreamKind::Logs, target(PODS, "a")));
    worker.step(&mut state, start(StreamKind::Logs, target(PODS, "b")));
    worker.step(&mut state, start(StreamKind::Watch, target(NODES, "n1")));

    let broken = StreamEvent::Broken { handle: 1, reason: "connection reset".to_string() };
    assert_eq!(worker.step(&mut state, broken), StreamAction::Continue);
    assert_eq!(worker.phase(), StreamPhase::Running);
    assert_eq!(
        *worker.handles(),
        vec![
            handle(0, StreamKind::Logs, target(PODS, "a")),
            StreamHandle {
                id: 1,
                kind: StreamKind::Logs,
                target: target(PODS, "b"),
                error: Some("connection reset".to_string()),
            },
            handle(2, StreamKind::Watch, target(NODES, "n1")),
        ]
    );
    assert_eq!(
        *state.error(),
        Some(Failure::Stream { handle: 1, reason: "connection reset".to_string() })
    );

    let line = StreamEvent::Data { handle: 0, payload: "still here".to_string(), at: 2 };
    assert_eq!(worker.step(&mut state, line), StreamAction::Continue);
    let update = StreamEvent::Data { handle: 2, payload: "n1 ready".to_string(), at: 3 };
    assert_eq!(worker.step(&mut state, update), StreamAction::Continue);
    assert_eq!(*state.logs(), vec!["still here".to_string()]);
    assert_eq!(state.snapshot(NODES).map(|s| s.data.as_str()), Some("n1 ready"));

    assert_eq!(
        worker.step(&mut state, start(StreamKind::Logs, target(PODS, "c"))),
        StreamAction::Open(handle(3, StreamKind::Logs, target(PODS, "c")))
    );
    assert_eq!(worker.step(&mut state, stop(1)), StreamAction::Close(1));
    assert_eq!(worker.handles().len(), 3);
}

#[test]
fn closed_queue_ends_every_feed() {
    let mut state = ApplicationState::new(true, 20);
    let mut worker = running(&mut state);
    worker.step(&mut state, start(StreamKind::Logs, target(PODS, "a")));
    worker.step(&mut state, start(StreamKind::Logs, target(PODS, "b")));
    assert_eq!(worker.step(&mut state, StreamEvent::QueueClosed), StreamAction::Halt);
    assert_eq!(worker.phase(), StreamPhase::Stopped);
    assert!(worker.handles().is_empty());
    let late = StreamEvent::Data { handle: 0, payload: "late".to_string(), at: 1 };
    assert_eq!(worker.step(&mut state, late), StreamAction::Halt);
    assert!(state.logs().is_empty());
}

#[test]
fn copies_of_handles_and_requests_are_equal_to_their_originals() {
    let original = StreamHandle {
        id: 4,
        kind: StreamKind::Watch,
        target: target(NODES, "n1"),
        error: Some("x".to_string()),
    };
    assert_eq!(original.clone(), original);
    let request = StreamRequest::Start { kind: StreamKind::Logs, target: target(PODS, "a") };
    assert_eq!(request.clone(), request);
    assert_eq!(StreamRequest::Stop { handle: 3 }.clone(), StreamRequest::Stop { handle: 3 });
}

#[test]
fn start_is_refused_once_the_handle_ids_are_used_up() {
    let mut state = ApplicationState::new(true, 20);
    let mut worker = StreamWorker::starting_at(u64::MAX - 1);
    worker.step(&mut state, StreamEvent::ClientReady);
    assert_eq!(
        worker.step(&mut state, start(StreamKind::Logs, target(PODS, "a"))),
        StreamAction::Open(handle(u64::MAX - 1, StreamKind::Logs, target(PODS, "a")))
    );
    assert_eq!(*state.error(), None);
    assert_eq!(
        worker.step(&mut state, start(StreamKind::Watch, target(NODES, "n1"))),
        StreamAction::Continue
    );
    assert_eq!(*state.error(), Some(Failure::StreamRefused { target: target(NODES, "n1") }));
    assert_eq!(*worker.handles(), vec![handle(u64::MAX - 1, StreamKind::Logs, target(PODS, "a"))]);
    assert_eq!(worker.phase(), StreamPhase::Running);
    assert_eq!(worker.step(&mut state, stop(u64::MAX - 1)), StreamAction::Close(u64::MAX - 1));
    assert!(worker.handles().is_empty());
}
