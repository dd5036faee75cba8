//! The engine behind continuous feeds. It keeps a table of open feeds, each
//! under a handle of its own, and serves its queue while they run: an update
//! or a failure of one feed is one short step that touches that feed alone.

use vstd::prelude::*;
use crate::request::{Selection, StreamKind, StreamRequest, copy_text};
use crate::state::{ApplicationState, Failure, StateView, WorkerKind};

verus! {

/// An open feed.
#[derive(Debug, PartialEq, Eq)]
pub struct StreamHandle {
    /// The id under which the feed is stopped and its updates arrive.
    pub id: u64,
    pub kind: StreamKind,
    pub target: Selection,
    /// The last failure of this feed, if it ever failed.
    pub error: Option<String>,
}

impl Clone for StreamHandle {
    fn clone(&self) -> (copy: StreamHandle)
        ensures
            copy == *self,
    {
        StreamHandle {
            id: self.id,
            kind: self.kind,
            target: self.target.clone(),
            error: copy_text(&self.error),
        }
    }
}

/// Where the stream worker stands.
#[derive(Clone, Copy, Debug, PartialEq, Eq, Structural)]
pub enum StreamPhase {
    /// Waiting for its remote client to be established.
    Starting,
    /// Serving its queue and its open feeds.
    Running,
    /// The client could not be established; the worker never ran.
    Failed,
    /// The queue was closed.
    Stopped,
}

/// What the stream worker is told.
#[derive(Debug, PartialEq, Eq)]
pub enum StreamEvent {
    ClientReady,
    ClientFailed(String),
    /// The queue handed out its oldest request.
    Dequeued(StreamRequest),
    /// The feed under `handle` delivered an update at time `at`.
    Data { handle: u64, payload: String, at: u64 },
    /// The feed under `handle` failed.
    Broken { handle: u64, reason: String },
    QueueClosed,
}

/// What the stream worker's caller is to do next.
#[derive(Debug, PartialEq, Eq)]
pub enum StreamAction {
    /// Go on serving the queue and the open feeds.
    Continue,
    /// Open this feed, then go on.
    Open(StreamHandle),
    /// Close the feed under this handle, then go on.
    Close(u64),
    /// Close every feed and end the worker.
    Halt,
    /// Nothing: the event does not belong to where the worker stands, or it
    /// names a feed that is not open.
    Ignore,
}

/// Whether a feed is open under `id`.
pub open spec fn live(handles: Seq<StreamHandle>, id: u64) -> bool {
    exists|i: int| 0 <= i < handles.len() && #[trigger] handles[i].id == id
}

/// Where the feed under `id` stands in the table.
pub open spec fn slot(handles: Seq<StreamHandle>, id: u64) -> int {
    choose|i: int| 0 <= i < handles.len() && #[trigger] handles[i].id == id
}

/// The stream worker as a mathematical value.
pub struct StreamView {
    pub phase: StreamPhase,
    /// The open feeds, oldest first.
    pub handles: Seq<StreamHandle>,
    /// The id that the next feed gets.
    pub next_id: u64,
}

impl StreamView {
    /// Every id in use was handed out before, and none is in use twice.
    pub open spec fn wf(self) -> bool {
        &&& forall|i: int| 0 <= i < self.handles.len() ==> (#[trigger] self.handles[i]).id
            < self.next_id
        &&& forall|i: int, j: int|
            #![trigger self.handles[i], self.handles[j]]
            0 <= i < j < self.handles.len() ==> self.handles[i].id != self.handles[j].id
    }

    /// A worker that has yet to establish its client.
    pub open spec fn initial() -> StreamView {
        StreamView { phase: StreamPhase::Starting, handles: Seq::empty(), next_id: 0 }
    }
}

/// The feed that a start request opens under `id`.
pub open spec fn opened(id: u64, kind: StreamKind, target: Selection) -> StreamHandle {
    StreamHandle { id, kind, target, error: None }
}

/// One step of a running stream worker on a request from its queue.
pub open spec fn stream_request_step(worker: StreamView, state: StateView, request: StreamRequest)
    -> (StreamView, StateView, StreamAction) {
    match request {
        StreamRequest::Start { kind, target } => if worker.next_id < u64::MAX {
            (
                StreamView {
                    handles: worker.handles.push(opened(worker.next_id, kind, target)),
                    next_id: (worker.next_id + 1) as u64,
                    ..worker
                },
                state,
                StreamAction::Open(opened(worker.next_id, kind, target)),
            )
        } else {
            (worker, state.failed(Failure::StreamRefused { target }), StreamAction::Continue)
        },
        StreamRequest::Stop { handle } => if live(worker.handles, handle) {
            (
                StreamView {
                    handles: worker.handles.remove(slot(worker.handles, handle)),
                    ..worker
                },
                state,
                StreamAction::Close(handle),
            )
        } else {
            (worker, state, StreamAction::Continue)
        },
    }
}

/// The shared state after the feed `feed` delivered `payload`: a log line is
/// appended, a watched kind gets its snapshot replaced.
pub open spec fn delivered(state: StateView, feed: StreamHandle, payload: String, at: u64)
    -> StateView {
    match feed.kind {
        StreamKind::Logs => state.logged(payload),
        StreamKind::Watch => state.stored(feed.target.kind, payload, at),
    }
}

/// One step of the stream worker: what it is next, the shared state after
/// the step, and what its caller is to do.
pub open spec fn stream_step(worker: StreamView, state: StateView, event: StreamEvent) -> (
    StreamView,
    StateView,
    StreamAction,
) {
    match worker.phase {
        StreamPhase::Starting => match event {
            StreamEvent::ClientReady => (
                StreamView { phase: StreamPhase::Running, ..worker },
                state,
                StreamAction::Continue,
            ),
            StreamEvent::ClientFailed(reason) => (
                StreamView { phase: StreamPhase::Failed, ..worker },
                state.failed(Failure::Client { worker: WorkerKind::Stream, reason }),
                StreamAction::Halt,
            ),
            _ => (worker, state, StreamAction::Ignore),
        },
        StreamPhase::Running => match event {
            StreamEvent::Dequeued(request) => stream_request_step(worker, state, request),
            StreamEvent::Data { handle, payload, at } => if live(worker.handles, handle) {
                (
                    worker,
                    delivered(state, worker.handles[slot(worker.handles, handle)], payload, at),
                    StreamAction::Continue,
                )
            } else {
                (worker, state, StreamAction::Ignore)
            },
            StreamEvent::Broken { handle, reason } => if live(worker.handles, handle) {
                (
                    StreamView {
                        handles: worker.handles.update(
                            slot(worker.handles, handle),
                            StreamHandle {
                                error: Some(reason),
                                ..worker.handles[slot(worker.handles, handle)]
                            },
                        ),
                        ..worker
                    },
                    state.failed(Failure::Stream { handle, reason }),
                    StreamAction::Continue,
                )
            } else {
                (worker, state, StreamAction::Ignore)
            },
            StreamEvent::QueueClosed => (
                StreamView { phase: StreamPhase::Stopped, handles: Seq::empty(), ..worker },
                state,
                StreamAction::Halt,
            ),
            _ => (worker, state, StreamAction::Ignore),
        },
        StreamPhase::Failed => (worker, state, StreamAction::Halt),
        StreamPhase::Stopped => (worker, state, StreamAction::Halt),
    }
}

/// Where the feed under `id` stands in `handles`, if it is open.
fn slot_of(handles: &Vec<StreamHandle>, id: u64) -> (found: Option<usize>)
    ensures
        match found {
            Some(i) => i < handles@.len() && handles@[i as int].id == id,
            None => !live(handles@, id),
        },
{
    let mut i: usize = 0;
    while i < handles.len()
        invariant
            i <= handles.len(),
            forall|j: int| 0 <= j < i ==> (#[trigger] handles@[j]).id != id,
        decreases handles.len() - i,
    {
        if handles[i].id == id {
            return Some(i);
        }
        i += 1;
    }
    None
}

/// In a table without repeated ids, the place of an id is the one place
/// where it is found.
proof fn lemma_slot_is_unique(worker: StreamView, id: u64, i: int)
    requires
        worker.wf(),
        0 <= i < worker.handles.len(),
        worker.handles[i].id == id,
    ensures
        live(worker.handles, id),
        slot(worker.handles, id) == i,
{
    let j = slot(worker.handles, id);
    assert(0 <= j < worker.handles.len() && worker.handles[j].id == id);
    if j < i {
        assert(worker.handles[j].id != worker.handles[i].id);
    }
    if i < j {
        assert(worker.handles[i].id != worker.handles[j].id);
    }
}

/// The stream worker: its phase and the table of open feeds.
#[derive(Debug)]
pub struct StreamWorker {
    phase: StreamPhase,
    handles: Vec<StreamHandle>,
    next_id: u64,
}

impl View for StreamWorker {
    type V = StreamView;

    closed spec fn view(&self) -> StreamView {
        StreamView { phase: self.phase, handles: self.handles@, next_id: self.next_id }
    }
}

impl StreamWorker {
    #[verifier::type_invariant]
    spec fn well_formed(&self) -> bool {
        self@.wf()
    }

    /// A worker that has yet to establish its client.
    pub fn new() -> (worker: StreamWorker)
        ensures
            worker@ == StreamView::initial(),
            worker@.wf(),
    {
        StreamWorker { phase: StreamPhase::Starting, handles: Vec::new(), next_id: 0 }
    }

    /// A worker that has yet to establish its client and numbers its feeds
    /// from `first` on.
    pub fn starting_at(first: u64) -> (worker: StreamWorker)
        ensures
            worker@ == (StreamView { next_id: first, ..StreamView::initial() }),
            worker@.wf(),
    {
        StreamWorker { phase: StreamPhase::Starting, handles: Vec::new(), next_id: first }
    }

    /// Where the worker stands.
    pub fn phase(&self) -> (phase: StreamPhase)
        ensures
            phase == self@.phase,
    {
        self.phase
    }

    /// The open feeds, oldest first.
    pub fn handles(&self) -> (handles: &Vec<StreamHandle>)
        ensures
            handles@ == self@.handles,
            self@.wf(),
    {
        proof {
            use_type_invariant(self);
        }
        &self.handles
    }

    fn open(&mut self, kind: StreamKind, target: Selection) -> (handle: StreamHandle)
        requires
            old(self)@.phase == StreamPhase::Running,
            old(self)@.next_id < u64::MAX,
        ensures
            final(self)@ == (StreamView {
                handles: old(self)@.handles.push(opened(old(self)@.next_id, kind, target)),
                next_id: (old(self)@.next_id + 1) as u64,
                ..old(self)@
            }),
            handle == opened(old(self)@.next_id, kind, target),
    {
        proof {
            use_type_invariant(&*self);
        }
        let handle = StreamHandle { id: self.next_id, kind, target, error: None };
        let copy = handle.clone();
        self.next_id = self.next_id + 1;
        let mut handles: Vec<StreamHandle> = Vec::new();
        core::mem::swap(&mut handles, &mut self.handles);
        handles.push(handle);
        core::mem::swap(&mut handles, &mut self.handles);
        copy
    }

    fn close(&mut self, i: usize)
        requires
            i < old(self)@.handles.len(),
        ensures
            final(self)@ == (StreamView {
                handles: old(self)@.handles.remove(i as int),
                ..old(self)@
            }),
    {
        proof {
            use_type_invariant(&*self);
        }
        let mut handles: Vec<StreamHandle> = Vec::new();
        core::mem::swap(&mut handles, &mut self.handles);
        let ghost before = handles@;
        handles.remove(i);
        assert forall|a: int, b: int| 0 <= a < b < handles@.len() implies handles@[a].id
            != handles@[b].id by {
            let a0 = if a < i { a } else { a + 1 };
            let b0 = if b < i { b } else { b + 1 };
            assert(handles@[a] == before[a0]);
            assert(handles@[b] == before[b0]);
        }
        assert forall|a: int| 0 <= a < handles@.len() implies (#[trigger] handles@[a]).id
            < self.next_id by {
            let a0 = if a < i { a } else { a + 1 };
            assert(handles@[a] == before[a0]);
        }
        core::mem::swap(&mut handles, &mut self.handles);
    }

    fn mark(&mut self, i: usize, reason: String)
        requires
            i < old(self)@.handles.len(),
        ensures
            final(self)@ == (StreamView {
                handles: old(self)@.handles.update(
                    i as int,
                    StreamHandle { error: Some(reason), ..old(self)@.handles[i as int] },
                ),
                ..old(self)@
            }),
    {
        proof {
            use_type_invariant(&*self);
        }
        let mut handles: Vec<StreamHandle> = Vec::new();
        core::mem::swap(&mut handles, &mut self.handles);
        let ghost before = handles@;
        let marked = StreamHandle {
            id: handles[i].id,
            kind: handles[i].kind,
            target: handles[i].target.clone(),
            error: Some(reason),
        };
        handles.set(i, marked);
        assert forall|a: int, b: int| 0 <= a < b < handles@.len() implies handles@[a].id
            != handles@[b].id by {
            assert(handles@[a].id == before[a].id);
            assert(handles@[b].id == before[b].id);
        }
        assert forall|a: int| 0 <= a < handles@.len() implies (#[trigger] handles@[a]).id
            < self.next_id by {
            assert(handles@[a].id == before[a].id);
        }
        core::mem::swap(&mut handles, &mut self.handles);
    }

    /// Takes one event: opens or closes a feed, writes an update of an open
    /// feed into `state`, or records the failure of one feed on its handle
    /// and on the banner. Stopping a feed that is not open changes nothing.
    pub fn step(&mut self, state: &mut ApplicationState, event: StreamEvent) -> (action:
        StreamAction)
        ensures
            (final(self)@, final(state)@, action) == stream_step(old(self)@, old(state)@, event),
            final(self)@.wf(),
    {
        proof {
            use_type_invariant(&*self);
        }
        let action = match self.phase {
            StreamPhase::Starting => match event {
                StreamEvent::ClientReady => {
                    self.phase = StreamPhase::Running;
                    StreamAction::Continue
                },
                StreamEvent::ClientFailed(reason) => {
                    state.set_error(Failure::Client { worker: WorkerKind::Stream, reason });
                    self.phase = StreamPhase::Failed;
                    StreamAction::Halt
                },
                _ => StreamAction::Ignore,
            },
            StreamPhase::Running => match event {
                StreamEvent::Dequeued(request) => match request {
                    StreamRequest::Start { kind, target } => {
                        if self.next_id < u64::MAX {
                            StreamAction::Open(self.open(kind, target))
                        } else {
                            state.set_error(Failure::StreamRefused { target });
                            StreamAction::Continue
                        }
                    },
                    StreamRequest::Stop { handle } => match slot_of(&self.handles, handle) {
                        Some(i) => {
                            proof {
                                lemma_slot_is_unique(self@, handle, i as int);
                            }
                            self.close(i);
                            StreamAction::Close(handle)
                        },
                        None => StreamAction::Continue,
                    },
                },
                StreamEvent::Data { handle, payload, at } => match slot_of(&self.handles, handle) {
                    Some(i) => {
                        proof {
                            lemma_slot_is_unique(self@, handle, i as int);
                        }
                        match self.handles[i].kind {
                            StreamKind::Logs => state.append_log(payload),
                            StreamKind::Watch => state.set_snapshot(
                                self.handles[i].target.kind,
                                payload,
                                at,
                            ),
                        }
                        StreamAction::Continue
                    },
                    None => StreamAction::Ignore,
                },
                StreamEvent::Broken { handle, reason } => match slot_of(&self.handles, handle) {
                    Some(i) => {
                        proof {
                            lemma_slot_is_unique(self@, handle, i as int);
                        }
                        self.mark(i, reason.clone());
                        state.set_error(Failure::Stream { handle, reason });
                        StreamAction::Continue
                    },
                    None => StreamAction::Ignore,
                },
                StreamEvent::QueueClosed => {
                    self.handles = Vec::new();
                    self.phase = StreamPhase::Stopped;
                    StreamAction::Halt
                },
                _ => StreamAction::Ignore,
            },
            StreamPhase::Failed => StreamAction::Halt,
            StreamPhase::Stopped => StreamAction::Halt,
        };
        proof {
            use_type_invariant(&*self);
        }
        action
    }
}

/// Every step leaves the table of open feeds sound.
pub proof fn lemma_step_keeps_table_sound(worker: StreamView, state: StateView, event: StreamEvent)
    requires
        worker.wf(),
    ensures
        stream_step(worker, state, event).0.wf(),
{
    let after = stream_step(worker, state, event).0;
    if worker.phase == StreamPhase::Running {
        match event {
            StreamEvent::Dequeued(StreamRequest::Stop { handle }) => {
                if live(worker.handles, handle) {
                    let k = slot(worker.handles, handle);
                    assert forall|i: int| 0 <= i < after.handles.len() implies (
                    #[trigger] after.handles[i]).id < after.next_id by {
                        let i0 = if i < k { i } else { i + 1 };
                        assert(after.handles[i] == worker.handles[i0]);
                    }
                    assert forall|i: int, j: int|
                        #![trigger after.handles[i], after.handles[j]]
                        0 <= i < j < after.handles.len() implies after.handles[i].id
                        != after.handles[j].id by {
                        let i0 = if i < k { i } else { i + 1 };
                        let j0 = if j < k { j } else { j + 1 };
                        assert(after.handles[i] == worker.handles[i0]);
                        assert(after.handles[j] == worker.handles[j0]);
                    }
                }
            },
            StreamEvent::Broken { handle, reason } => {
                if live(worker.handles, handle) {
                    assert forall|i: int| 0 <= i < after.handles.len() implies (
                    #[trigger] after.handles[i]).id < after.next_id by {
                        assert(after.handles[i].id == worker.handles[i].id);
                    }
                    assert forall|i: int, j: int|
                        #![trigger after.handles[i], after.handles[j]]
                        0 <= i < j < after.handles.len() implies after.handles[i].id
                        != after.handles[j].id by {
                        assert(after.handles[i].id == worker.handles[i].id);
                        assert(after.handles[j].id == worker.handles[j].id);
                    }
                }
            },
            _ => {},
        }
    }
}

/// The failure of one feed stays with that feed. Every other feed is in the
/// table exactly as before, the failed one is still open and only carries
/// the reason, nothing fetched so far is lost, and the worker keeps
/// running: the next request from its queue is served as ever.
pub proof fn lemma_broken_feed_spares_the_rest(
    worker: StreamView,
    state: StateView,
    handle: u64,
    reason: String,
    request: StreamRequest,
)
    requires
        worker.wf(),
        worker.phase == StreamPhase::Running,
    ensures
        ({
            let after = stream_step(worker, state, StreamEvent::Broken { handle, reason });
            &&& after.0.phase == StreamPhase::Running
            &&& after.0.next_id == worker.next_id
            &&& after.0.handles.len() == worker.handles.len()
            &&& forall|i: int|
                #![trigger after.0.handles[i]]
                0 <= i < worker.handles.len() ==> {
                    &&& after.0.handles[i].id == worker.handles[i].id
                    &&& after.0.handles[i].kind == worker.handles[i].kind
                    &&& after.0.handles[i].target == worker.handles[i].target
                    &&& worker.handles[i].id != handle ==> after.0.handles[i] == worker.handles[i]
                    &&& worker.handles[i].id == handle ==> after.0.handles[i].error == Some(reason)
                }
            &&& after.1.snapshots == state.snapshots
            &&& after.1.logs == state.logs
            &&& after.2 == StreamAction::Continue || after.2 == StreamAction::Ignore
            &&& stream_step(after.0, after.1, StreamEvent::Dequeued(request))
                == stream_request_step(after.0, after.1, request)
        }),
{
    if live(worker.handles, handle) {
        let k = slot(worker.handles, handle);
        assert forall|i: int| 0 <= i < worker.handles.len() && worker.handles[i].id
            == handle implies i == k by {
            lemma_slot_is_unique(worker, handle, i);
        }
    }
}

/// Stopping a feed that is not open is no error and changes nothing.
pub proof fn lemma_stop_of_unknown_feed_changes_nothing(
    worker: StreamView,
    state: StateView,
    handle: u64,
)
    requires
        worker.phase == StreamPhase::Running,
        !live(worker.handles, handle),
    ensures
        stream_step(worker, state, StreamEvent::Dequeued(StreamRequest::Stop { handle })) == (
            worker,
            state,
            StreamAction::Continue,
        ),
{
}

/// A step that orders a feed to be opened or closed writes nothing into the
/// shared state.
pub proof fn lemma_feed_is_ordered_without_a_write(
    worker: StreamView,
    state: StateView,
    event: StreamEvent,
)
    ensures
        stream_step(worker, state, event).2 is Open || stream_step(worker, state, event).2 is Close
            ==> stream_step(worker, state, event).1 == state,
{
}

} // verus!
