//! The interface loop as a state machine: it draws a frame, waits for one
//! event, handles it and draws again, until it is told to quit. It decides
//! which ticks poll the cluster and what a poll asks for.

use vstd::prelude::*;
use crate::key::{Key, default_bindings, default_keybinding};
use crate::request::{QueryRequest, ResourceKind, Selection, copy_text};
use crate::state::{ApplicationState, StateView, TerminalSize};

verus! {

/// Where the interface loop stands.
#[derive(Clone, Copy, Debug, PartialEq, Eq, Structural)]
pub enum UiPhase {
    /// About to draw a frame.
    Rendering,
    /// A frame is on screen; the loop waits for the next event.
    AwaitingEvent,
    /// The loop has ended. Nothing leads out of this phase.
    ShuttingDown,
}

/// What the interface loop is told while it waits.
#[derive(Clone, Copy, Debug, PartialEq, Eq, Structural)]
pub enum UiEvent {
    /// A key was pressed.
    Input(Key),
    /// The mouse was used.
    Mouse,
    /// The tick with this number is due. Ticks are numbered from 1.
    Tick(u64),
    /// The terminal changed its size.
    Resize(TerminalSize),
    /// The process was asked to end from outside.
    Interrupt,
}

/// What the caller of the interface loop is to do next.
#[derive(Clone, Copy, Debug, PartialEq, Eq, Structural)]
pub enum UiAction {
    /// Draw a frame; `full` asks to repaint every cell.
    Draw { full: bool },
    /// Hand the key to the key handlers.
    HandleKey(Key),
    /// Hand the mouse event to the mouse handlers.
    HandleMouse,
    /// Put the refresh requests of this poll on the query queue.
    Poll,
    /// Nothing beyond going on with the loop.
    Proceed,
    /// Leave the loop and give the terminal back as it was found.
    RestoreTerminal,
    /// Nothing: the input does not belong to where the loop stands.
    Ignore,
}

/// Whether the tick with number `counter` is one on which the cluster is
/// polled.
pub open spec fn poll_tick(counter: u64, ratio: u64) -> bool {
    counter % ratio == 0
}

/// Whether the tick with number `counter` is one on which the cluster is
/// polled, when `ratio` ticks lie between two polls.
pub fn is_poll_tick(counter: u64, ratio: u64) -> (due: bool)
    requires
        ratio >= 1,
    ensures
        due == poll_tick(counter, ratio),
{
    counter % ratio == 0
}

/// The request that refreshes `kind` within `namespace`.
pub open spec fn refresh_of(kind: ResourceKind, namespace: Option<String>) -> QueryRequest {
    QueryRequest::List(Selection { kind, namespace, name: None })
}

/// What one poll asks for: a refresh of each visible kind, in the order in
/// which the kinds are listed.
pub open spec fn refresh_requests(state: StateView) -> Seq<QueryRequest> {
    Seq::new(state.visible.len(), |i: int| refresh_of(state.visible[i], state.namespace))
}

/// The requests of one poll: one refresh for each kind on screen.
pub fn refresh_batch(state: &ApplicationState) -> (batch: Vec<QueryRequest>)
    ensures
        batch@ == refresh_requests(state@),
{
    let kinds = state.visible();
    let mut batch: Vec<QueryRequest> = Vec::new();
    let mut i: usize = 0;
    while i < kinds.len()
        invariant
            i <= kinds.len(),
            kinds@ == state@.visible,
            batch@.len() == i,
            forall|j: int| 0 <= j < i ==> batch@[j] == refresh_of(kinds@[j], state@.namespace),
        decreases kinds.len() - i,
    {
        batch.push(
            QueryRequest::List(
                Selection { kind: kinds[i], namespace: copy_text(state.namespace()), name: None },
            ),
        );
        i += 1;
    }
    assert(batch@ =~= refresh_requests(state@));
    batch
}

/// One poll refreshes every visible kind, and none of them twice.
pub proof fn lemma_one_refresh_per_visible_kind(state: StateView)
    requires
        state.wf(),
    ensures
        refresh_requests(state).len() == state.visible.len(),
        forall|i: int|
            0 <= i < state.visible.len() ==> (#[trigger] refresh_requests(state)[i]).target().kind
                == state.visible[i],
        forall|i: int, j: int|
            #![trigger refresh_requests(state)[i], refresh_requests(state)[j]]
            0 <= i < j < state.visible.len() ==> refresh_requests(state)[i].target().kind
                != refresh_requests(state)[j].target().kind,
{
}

/// Polls come every `ratio` ticks and at no tick between: none of the first
/// `ratio - 1` ticks polls, tick `ratio` does, and after a tick that polls
/// the next one that does is `ratio` ticks later.
pub proof fn lemma_polls_are_ratio_ticks_apart(ratio: u64, counter: u64, gap: u64)
    requires
        ratio >= 1,
        0 < gap < ratio,
        counter + ratio <= u64::MAX,
    ensures
        !poll_tick(gap, ratio),
        poll_tick(ratio, ratio),
        poll_tick(counter, ratio) ==> !poll_tick((counter + gap) as u64, ratio),
        poll_tick(counter, ratio) ==> poll_tick((counter + ratio) as u64, ratio),
{
    vstd::arithmetic::div_mod::lemma_small_mod(gap as nat, ratio as nat);
    vstd::arithmetic::div_mod::lemma_mod_self_0(ratio as int);
    if poll_tick(counter, ratio) {
        vstd::arithmetic::div_mod::lemma_mod_adds(counter as int, gap as int, ratio as int);
        vstd::arithmetic::div_mod::lemma_mod_adds(counter as int, ratio as int, ratio as int);
        vstd::arithmetic::div_mod::lemma_small_mod(0, ratio as nat);
    }
}

/// Drawing a frame: a loop that is to end restores the terminal instead;
/// otherwise the terminal is measured, a change of size counts as a request
/// for a full redraw, and the frame drawn answers that request.
pub open spec fn frame_step(phase: UiPhase, state: StateView, observed: TerminalSize) -> (
    UiPhase,
    StateView,
    UiAction,
) {
    match phase {
        UiPhase::ShuttingDown => (phase, state, UiAction::Ignore),
        UiPhase::AwaitingEvent => (phase, state, UiAction::Ignore),
        UiPhase::Rendering => if state.should_quit {
            (UiPhase::ShuttingDown, state, UiAction::RestoreTerminal)
        } else {
            (
                UiPhase::AwaitingEvent,
                state.resized(observed).flagged(false),
                UiAction::Draw { full: state.resized(observed).refresh },
            )
        },
    }
}

/// Whether an event ends the loop by itself: the quit key, or a request
/// from outside to end the process.
pub open spec fn ends_loop(event: UiEvent) -> bool {
    event == UiEvent::Interrupt || event == UiEvent::Input(default_bindings().quit)
}

/// Handling one event. An event that ends the loop does so at once, from
/// either running phase and whatever else is going on.
pub open spec fn event_step(phase: UiPhase, state: StateView, event: UiEvent) -> (
    UiPhase,
    StateView,
    UiAction,
) {
    if phase == UiPhase::ShuttingDown {
        (phase, state, UiAction::Ignore)
    } else if ends_loop(event) {
        (UiPhase::ShuttingDown, state, UiAction::RestoreTerminal)
    } else if phase == UiPhase::Rendering {
        (phase, state, UiAction::Ignore)
    } else {
        match event {
            UiEvent::Input(key) => (UiPhase::Rendering, state, UiAction::HandleKey(key)),
            UiEvent::Mouse => (UiPhase::Rendering, state, UiAction::HandleMouse),
            UiEvent::Tick(counter) => (
                UiPhase::Rendering,
                state,
                if poll_tick(counter, state.poll_to_tick_ratio) {
                    UiAction::Poll
                } else {
                    UiAction::Proceed
                },
            ),
            UiEvent::Resize(size) => (UiPhase::Rendering, state.resized(size), UiAction::Proceed),
            UiEvent::Interrupt => (UiPhase::ShuttingDown, state, UiAction::RestoreTerminal),
        }
    }
}

/// Starts a pass of the loop: says whether to draw a frame or to give the
/// terminal back, and brings the recorded size up to date.
pub fn render_frame(phase: UiPhase, state: &mut ApplicationState, observed: TerminalSize) -> (next:
    (UiPhase, UiAction))
    ensures
        (next.0, final(state)@, next.1) == frame_step(phase, old(state)@, observed),
{
    match phase {
        UiPhase::ShuttingDown => (phase, UiAction::Ignore),
        UiPhase::AwaitingEvent => (phase, UiAction::Ignore),
        UiPhase::Rendering => {
            if state.should_quit() {
                (UiPhase::ShuttingDown, UiAction::RestoreTerminal)
            } else {
                state.resize(observed);
                let full = state.refresh();
                state.clear_refresh();
                (UiPhase::AwaitingEvent, UiAction::Draw { full })
            }
        },
    }
}

/// Handles the event that ended the wait: says what the caller is to do
/// with it and where the loop goes next.
pub fn dispatch(phase: UiPhase, state: &mut ApplicationState, event: UiEvent) -> (next: (
    UiPhase,
    UiAction,
))
    ensures
        (next.0, final(state)@, next.1) == event_step(phase, old(state)@, event),
{
    let quit = default_keybinding().quit;
    if phase == UiPhase::ShuttingDown {
        return (phase, UiAction::Ignore);
    }
    match event {
        UiEvent::Interrupt => (UiPhase::ShuttingDown, UiAction::RestoreTerminal),
        UiEvent::Input(key) => {
            if key == quit {
                (UiPhase::ShuttingDown, UiAction::RestoreTerminal)
            } else if phase == UiPhase::Rendering {
                (phase, UiAction::Ignore)
            } else {
                (UiPhase::Rendering, UiAction::HandleKey(key))
            }
        },
        UiEvent::Mouse => {
            if phase == UiPhase::Rendering {
                (phase, UiAction::Ignore)
            } else {
                (UiPhase::Rendering, UiAction::HandleMouse)
            }
        },
        UiEvent::Tick(counter) => {
            if phase == UiPhase::Rendering {
                (phase, UiAction::Ignore)
            } else if is_poll_tick(counter, state.poll_to_tick_ratio()) {
                (UiPhase::Rendering, UiAction::Poll)
            } else {
                (UiPhase::Rendering, UiAction::Proceed)
            }
        },
        UiEvent::Resize(size) => {
            if phase == UiPhase::Rendering {
                (phase, UiAction::Ignore)
            } else {
                state.resize(size);
                (UiPhase::Rendering, UiAction::Proceed)
            }
        },
    }
}

/// Quitting does not wait for anything. From either running phase the quit
/// key and an interrupt end the loop in that very step and order the
/// terminal to be restored; a loop that finds the quit flag set does the
/// same in place of drawing. No step reads a queue or a worker, so a fetch
/// under way cannot hold the loop back. Once ended, the loop stays ended.
pub proof fn lemma_quit_ends_the_loop(
    phase: UiPhase,
    state: StateView,
    event: UiEvent,
    observed: TerminalSize,
)
    ensures
        phase != UiPhase::ShuttingDown && ends_loop(event) ==> event_step(phase, state, event) == (
            UiPhase::ShuttingDown,
            state,
            UiAction::RestoreTerminal,
        ),
        state.should_quit ==> frame_step(UiPhase::Rendering, state, observed) == (
            UiPhase::ShuttingDown,
            state,
            UiAction::RestoreTerminal,
        ),
        event_step(UiPhase::ShuttingDown, state, event) == (
            UiPhase::ShuttingDown,
            state,
            UiAction::Ignore,
        ),
        frame_step(UiPhase::ShuttingDown, state, observed) == (
            UiPhase::ShuttingDown,
            state,
            UiAction::Ignore,
        ),
{
}

/// A tick asks for a poll exactly when its number is a multiple of the
/// ratio, and it never changes the shared state.
pub proof fn lemma_tick_polls_on_multiples_only(state: StateView, counter: u64)
    ensures
        event_step(UiPhase::AwaitingEvent, state, UiEvent::Tick(counter)).2 == UiAction::Poll
            <==> counter % state.poll_to_tick_ratio == 0,
        event_step(UiPhase::AwaitingEvent, state, UiEvent::Tick(counter)).2 == UiAction::Proceed
            <==> counter % state.poll_to_tick_ratio != 0,
        event_step(UiPhase::AwaitingEvent, state, UiEvent::Tick(counter)).1 == state,
        event_step(UiPhase::AwaitingEvent, state, UiEvent::Tick(counter)).0 == UiPhase::Rendering,
{
}

} // verus!
