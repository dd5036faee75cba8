//! The shared state container: the one place where snapshots, the error
//! banner and the control flags live. Every method is a short in-memory
//! update, so a caller that holds the lock around one call never holds it
//! across remote work.

use std::collections::HashMap;
use vstd::prelude::*;
use crate::request::{ActionRequest, QueryRequest, ResourceKind, Selection, copy_text};

verus! {

broadcast use vstd::std_specs::hash::group_hash_axioms;

/// Width and height of the terminal, in cells.
#[derive(Clone, Copy, Debug, PartialEq, Eq, Structural)]
pub struct TerminalSize {
    pub width: u16,
    pub height: u16,
}

/// The most recently fetched representation of one resource kind.
#[derive(Debug, PartialEq, Eq)]
pub struct Snapshot {
    pub data: String,
    /// When the data was fetched, as the caller's clock gave it.
    pub refreshed_at: u64,
    /// What was wrong with the fetch that produced the data, if anything.
    pub error: Option<String>,
}

/// The three worker engines.
#[derive(Clone, Copy, Debug, PartialEq, Eq, Structural)]
pub enum WorkerKind {
    Query,
    Stream,
    Action,
}

/// What the error banner shows: the failure and what it befell.
#[derive(Debug, PartialEq, Eq)]
#[allow(inconsistent_fields)]
pub enum Failure {
    /// A worker could not establish its remote client and never ran.
    Client { worker: WorkerKind, reason: String },
    /// A fetch failed.
    Query { request: QueryRequest, reason: String },
    /// An open feed failed.
    Stream { handle: u64, reason: String },
    /// No further feed can be opened: the handle ids are used up.
    StreamRefused { target: Selection },
    /// A command failed.
    Action { request: ActionRequest, reason: String },
}

impl Clone for Snapshot {
    fn clone(&self) -> (copy: Snapshot)
        ensures
            copy == *self,
    {
        Snapshot {
            data: self.data.clone(),
            refreshed_at: self.refreshed_at,
            error: copy_text(&self.error),
        }
    }
}

impl Clone for Failure {
    fn clone(&self) -> (copy: Failure)
        ensures
            copy == *self,
    {
        match self {
            Failure::Client { worker, reason } => Failure::Client {
                worker: *worker,
                reason: reason.clone(),
            },
            Failure::Query { request, reason } => Failure::Query {
                request: request.clone(),
                reason: reason.clone(),
            },
            Failure::Stream { handle, reason } => Failure::Stream {
                handle: *handle,
                reason: reason.clone(),
            },
            Failure::StreamRefused { target } => Failure::StreamRefused { target: target.clone() },
            Failure::Action { request, reason } => Failure::Action {
                request: request.clone(),
                reason: reason.clone(),
            },
        }
    }
}

/// The application state as a mathematical value.
pub struct StateView {
    pub snapshots: Map<ResourceKind, Snapshot>,
    pub visible: Seq<ResourceKind>,
    pub namespace: Option<String>,
    pub banner: Option<Failure>,
    pub notice: Option<String>,
    pub logs: Seq<String>,
    pub refresh: bool,
    pub should_quit: bool,
    pub size: TerminalSize,
    pub poll_to_tick_ratio: u64,
    pub enhanced_graphics: bool,
}

impl StateView {
    /// At least one tick lies between two polls, and no kind is listed as
    /// visible twice.
    pub open spec fn wf(self) -> bool {
        &&& self.poll_to_tick_ratio >= 1
        &&& self.visible.no_duplicates()
    }

    /// The state at startup: nothing fetched, nothing shown, no flag set.
    pub open spec fn initial(enhanced_graphics: bool, poll_to_tick_ratio: u64) -> StateView {
        StateView {
            snapshots: Map::empty(),
            visible: Seq::empty(),
            namespace: None,
            banner: None,
            notice: None,
            logs: Seq::empty(),
            refresh: false,
            should_quit: false,
            size: TerminalSize { width: 0, height: 0 },
            poll_to_tick_ratio,
            enhanced_graphics,
        }
    }

    /// The snapshot of `kind` replaced, whatever was there before.
    pub open spec fn stored(self, kind: ResourceKind, data: String, at: u64) -> StateView {
        StateView {
            snapshots: self.snapshots.insert(
                kind,
                Snapshot { data, refreshed_at: at, error: None },
            ),
            ..self
        }
    }

    /// The banner replaced by `failure`.
    pub open spec fn failed(self, failure: Failure) -> StateView {
        StateView { banner: Some(failure), ..self }
    }

    /// The banner taken down.
    pub open spec fn dismissed(self) -> StateView {
        StateView { banner: None, ..self }
    }

    /// The confirmation of the last successful command replaced.
    pub open spec fn confirmed(self, text: String) -> StateView {
        StateView { notice: Some(text), ..self }
    }

    /// One more line at the end of the log buffer.
    pub open spec fn logged(self, line: String) -> StateView {
        StateView { logs: self.logs.push(line), ..self }
    }

    /// The redraw flag set to `on`.
    pub open spec fn flagged(self, on: bool) -> StateView {
        StateView { refresh: on, ..self }
    }

    /// The quit flag set.
    pub open spec fn quitting(self) -> StateView {
        StateView { should_quit: true, ..self }
    }

    /// The terminal measured as `size`: a change of size asks for a redraw.
    pub open spec fn resized(self, size: TerminalSize) -> StateView {
        StateView { size, refresh: self.refresh || self.size != size, ..self }
    }

    /// The namespace that refreshes are narrowed to replaced.
    pub open spec fn narrowed(self, namespace: Option<String>) -> StateView {
        StateView { namespace, ..self }
    }

    /// `kind` listed as visible, once.
    pub open spec fn shown(self, kind: ResourceKind) -> StateView {
        if self.visible.contains(kind) {
            self
        } else {
            StateView { visible: self.visible.push(kind), ..self }
        }
    }

    /// `kind` no longer listed as visible.
    pub open spec fn hidden(self, kind: ResourceKind) -> StateView {
        if self.visible.contains(kind) {
            StateView { visible: self.visible.remove(self.visible.index_of(kind)), ..self }
        } else {
            self
        }
    }
}

/// Where `kind` stands in `kinds`, if it stands there at all.
fn position_of(kinds: &Vec<ResourceKind>, kind: ResourceKind) -> (found: Option<usize>)
    ensures
        match found {
            Some(i) => i < kinds@.len() && kinds@[i as int] == kind,
            None => !kinds@.contains(kind),
        },
{
    let mut i: usize = 0;
    while i < kinds.len()
        invariant
            i <= kinds.len(),
            forall|j: int| 0 <= j < i ==> kinds@[j] != kind,
        decreases kinds.len() - i,
    {
        if kinds[i] == kind {
            return Some(i);
        }
        i += 1;
    }
    None
}

/// Snapshots per resource kind, what is on screen, the error banner and the
/// control flags.
#[derive(Debug)]
pub struct ApplicationState {
    snapshots: HashMap<ResourceKind, Snapshot>,
    visible: Vec<ResourceKind>,
    namespace: Option<String>,
    banner: Option<Failure>,
    notice: Option<String>,
    logs: Vec<String>,
    refresh: bool,
    should_quit: bool,
    size: TerminalSize,
    poll_to_tick_ratio: u64,
    enhanced_graphics: bool,
}

impl View for ApplicationState {
    type V = StateView;

    closed spec fn view(&self) -> StateView {
        StateView {
            snapshots: self.snapshots@,
            visible: self.visible@,
            namespace: self.namespace,
            banner: self.banner,
            notice: self.notice,
            logs: self.logs@,
            refresh: self.refresh,
            should_quit: self.should_quit,
            size: self.size,
            poll_to_tick_ratio: self.poll_to_tick_ratio,
            enhanced_graphics: self.enhanced_graphics,
        }
    }
}

impl ApplicationState {
    #[verifier::type_invariant]
    spec fn well_formed(&self) -> bool {
        self@.wf()
    }

    /// The state at startup.
    pub fn new(enhanced_graphics: bool, poll_to_tick_ratio: u64) -> (state: ApplicationState)
        requires
            poll_to_tick_ratio >= 1,
        ensures
            state@ == StateView::initial(enhanced_graphics, poll_to_tick_ratio),
            state@.wf(),
    {
        ApplicationState {
            snapshots: HashMap::new(),
            visible: Vec::new(),
            namespace: None,
            banner: None,
            notice: None,
            logs: Vec::new(),
            refresh: false,
            should_quit: false,
            size: TerminalSize { width: 0, height: 0 },
            poll_to_tick_ratio,
            enhanced_graphics,
        }
    }

    /// Replaces the snapshot of `kind` unconditionally: the last writer wins.
    pub fn set_snapshot(&mut self, kind: ResourceKind, data: String, at: u64)
        ensures
            final(self)@ == old(self)@.stored(kind, data, at),
            final(self)@.wf(),
    {
        proof {
            use_type_invariant(&*self);
        }
        let mut snapshots: HashMap<ResourceKind, Snapshot> = HashMap::new();
        core::mem::swap(&mut snapshots, &mut self.snapshots);
        snapshots.insert(kind, Snapshot { data, refreshed_at: at, error: None });
        core::mem::swap(&mut snapshots, &mut self.snapshots);
    }

    /// Replaces the banner: it is a single slot, not a queue.
    pub fn set_error(&mut self, failure: Failure)
        ensures
            final(self)@ == old(self)@.failed(failure),
            final(self)@.wf(),
    {
        proof {
            use_type_invariant(&*self);
        }
        self.banner = Some(failure);
    }

    /// Takes the banner down.
    pub fn dismiss_error(&mut self)
        ensures
            final(self)@ == old(self)@.dismissed(),
            final(self)@.wf(),
    {
        proof {
            use_type_invariant(&*self);
        }
        self.banner = None;
    }

    /// Records the confirmation of a command that succeeded.
    pub fn set_notice(&mut self, text: String)
        ensures
            final(self)@ == old(self)@.confirmed(text),
            final(self)@.wf(),
    {
        proof {
            use_type_invariant(&*self);
        }
        self.notice = Some(text);
    }

    /// Appends a line to the log buffer.
    pub fn append_log(&mut self, line: String)
        ensures
            final(self)@ == old(self)@.logged(line),
            final(self)@.wf(),
    {
        proof {
            use_type_invariant(&*self);
        }
        let mut logs: Vec<String> = Vec::new();
        core::mem::swap(&mut logs, &mut self.logs);
        logs.push(line);
        core::mem::swap(&mut logs, &mut self.logs);
    }

    /// Asks for a full redraw.
    pub fn mark_refresh(&mut self)
        ensures
            final(self)@ == old(self)@.flagged(true),
            final(self)@.wf(),
    {
        proof {
            use_type_invariant(&*self);
        }
        self.refresh = true;
    }

    /// Withdraws the request for a full redraw.
    pub fn clear_refresh(&mut self)
        ensures
            final(self)@ == old(self)@.flagged(false),
            final(self)@.wf(),
    {
        proof {
            use_type_invariant(&*self);
        }
        self.refresh = false;
    }

    /// Asks the interface loop to end.
    pub fn quit(&mut self)
        ensures
            final(self)@ == old(self)@.quitting(),
            final(self)@.wf(),
    {
        proof {
            use_type_invariant(&*self);
        }
        self.should_quit = true;
    }

    /// Records the size of the terminal; a change of size asks for a redraw.
    pub fn resize(&mut self, size: TerminalSize)
        ensures
            final(self)@ == old(self)@.resized(size),
            final(self)@.wf(),
    {
        proof {
            use_type_invariant(&*self);
        }
        if self.size != size {
            self.refresh = true;
        }
        self.size = size;
    }

    /// Narrows refreshes to one namespace, or widens them to all.
    pub fn set_namespace(&mut self, namespace: Option<String>)
        ensures
            final(self)@ == old(self)@.narrowed(namespace),
            final(self)@.wf(),
    {
        proof {
            use_type_invariant(&*self);
        }
        self.namespace = namespace;
    }

    /// Lists `kind` as visible, unless it is listed already.
    pub fn show_kind(&mut self, kind: ResourceKind)
        ensures
            final(self)@ == old(self)@.shown(kind),
            final(self)@.wf(),
    {
        proof {
            use_type_invariant(&*self);
        }
        if position_of(&self.visible, kind).is_none() {
            let mut visible: Vec<ResourceKind> = Vec::new();
            core::mem::swap(&mut visible, &mut self.visible);
            visible.push(kind);
            core::mem::swap(&mut visible, &mut self.visible);
        }
    }

    /// Takes `kind` off the list of visible kinds.
    pub fn hide_kind(&mut self, kind: ResourceKind)
        ensures
            final(self)@ == old(self)@.hidden(kind),
            final(self)@.wf(),
    {
        proof {
            use_type_invariant(&*self);
        }
        if let Some(i) = position_of(&self.visible, kind) {
            let mut visible: Vec<ResourceKind> = Vec::new();
            core::mem::swap(&mut visible, &mut self.visible);
            let ghost before = visible@;
            assert(before.index_of(kind) == i as int);
            visible.remove(i);
            assert(visible@.no_duplicates()) by {
                assert forall|a: int, b: int|
                    0 <= a < visible@.len() && 0 <= b < visible@.len() && a != b implies visible@[a]
                    != visible@[b] by {
                    let a0 = if a < i { a } else { a + 1 };
                    let b0 = if b < i { b } else { b + 1 };
                    assert(visible@[a] == before[a0]);
                    assert(visible@[b] == before[b0]);
                }
            }
            core::mem::swap(&mut visible, &mut self.visible);
        }
    }

    /// The snapshot of `kind`, if one was ever stored.
    pub fn snapshot(&self, kind: ResourceKind) -> (found: Option<&Snapshot>)
        ensures
            match found {
                Some(snapshot) => self@.snapshots.contains_key(kind) && *snapshot
                    == self@.snapshots[kind],
                None => !self@.snapshots.contains_key(kind),
            },
    {
        self.snapshots.get(&kind)
    }

    /// The kinds on screen, in the order in which they were shown.
    pub fn visible(&self) -> (kinds: &Vec<ResourceKind>)
        ensures
            kinds@ == self@.visible,
            kinds@.no_duplicates(),
    {
        proof {
            use_type_invariant(self);
        }
        &self.visible
    }

    /// The namespace that refreshes are narrowed to.
    pub fn namespace(&self) -> (namespace: &Option<String>)
        ensures
            *namespace == self@.namespace,
    {
        &self.namespace
    }

    /// The banner, if one is up.
    pub fn error(&self) -> (banner: &Option<Failure>)
        ensures
            *banner == self@.banner,
    {
        &self.banner
    }

    /// The confirmation of the last command that succeeded.
    pub fn notice(&self) -> (notice: &Option<String>)
        ensures
            *notice == self@.notice,
    {
        &self.notice
    }

    /// The log buffer.
    pub fn logs(&self) -> (lines: &Vec<String>)
        ensures
            lines@ == self@.logs,
    {
        &self.logs
    }

    /// Whether a full redraw is asked for.
    pub fn refresh(&self) -> (on: bool)
        ensures
            on == self@.refresh,
    {
        self.refresh
    }

    /// Whether the interface loop is asked to end.
    pub fn should_quit(&self) -> (on: bool)
        ensures
            on == self@.should_quit,
    {
        self.should_quit
    }

    /// The size of the terminal as last measured.
    pub fn size(&self) -> (size: TerminalSize)
        ensures
            size == self@.size,
    {
        self.size
    }

    /// How many ticks pass between two polls.
    pub fn poll_to_tick_ratio(&self) -> (ratio: u64)
        ensures
            ratio == self@.poll_to_tick_ratio,
            ratio >= 1,
    {
        proof {
            use_type_invariant(self);
        }
        self.poll_to_tick_ratio
    }

    /// Whether unicode symbols are used to improve the look.
    pub fn enhanced_graphics(&self) -> (on: bool)
        ensures
            on == self@.enhanced_graphics,
    {
        self.enhanced_graphics
    }
}

} // verus!
