//! The requests that travel through the three queues.

use vstd::prelude::*;

verus! {

/// Identifies a kind of cluster resource. Which kinds exist is up to the
/// application; the engine only tells them apart.
pub type ResourceKind = u64;

/// What a request applies to: a kind of resource, optionally narrowed to a
/// namespace and to one named resource.
#[derive(Debug, PartialEq, Eq)]
pub struct Selection {
    pub kind: ResourceKind,
    /// `None` stands for every namespace.
    pub namespace: Option<String>,
    /// `None` stands for every resource of the kind.
    pub name: Option<String>,
}

/// A one-shot fetch.
#[derive(Debug, PartialEq, Eq)]
pub enum QueryRequest {
    /// Fetch the resources that the selection covers.
    List(Selection),
    /// Fetch the one resource that the selection names.
    Get(Selection),
}

/// The two sorts of continuous feed.
#[derive(Clone, Copy, Debug, PartialEq, Eq, Structural)]
pub enum StreamKind {
    /// A log tail: every update is a line to append.
    Logs,
    /// A watch: every update replaces the snapshot of the watched kind.
    Watch,
}

/// Opens or closes a continuous feed.
#[derive(Debug, PartialEq, Eq)]
pub enum StreamRequest {
    Start { kind: StreamKind, target: Selection },
    Stop { handle: u64 },
}

/// An imperative command.
#[derive(Debug, PartialEq, Eq)]
pub enum ActionRequest {
    Delete(Selection),
    Describe(Selection),
}

pub(crate) fn copy_text(text: &Option<String>) -> (copy: Option<String>)
    ensures
        copy == *text,
{
    match text {
        Some(t) => Some(t.clone()),
        None => None,
    }
}

impl Clone for Selection {
    fn clone(&self) -> (copy: Selection)
        ensures
            copy == *self,
    {
        Selection {
            kind: self.kind,
            namespace: copy_text(&self.namespace),
            name: copy_text(&self.name),
        }
    }
}

impl Selection {
    /// Every resource of the same kind in the same namespace.
    pub open spec fn widened(self) -> Selection {
        Selection { kind: self.kind, namespace: self.namespace, name: None }
    }
}

impl QueryRequest {
    /// What the request applies to.
    pub open spec fn target(self) -> Selection {
        match self {
            QueryRequest::List(selection) => selection,
            QueryRequest::Get(selection) => selection,
        }
    }

    /// The kind whose snapshot the fetched data replaces.
    pub fn kind(&self) -> (kind: ResourceKind)
        ensures
            kind == self.target().kind,
    {
        match self {
            QueryRequest::List(selection) => selection.kind,
            QueryRequest::Get(selection) => selection.kind,
        }
    }
}

impl Clone for QueryRequest {
    fn clone(&self) -> (copy: QueryRequest)
        ensures
            copy == *self,
    {
        match self {
            QueryRequest::List(selection) => QueryRequest::List(selection.clone()),
            QueryRequest::Get(selection) => QueryRequest::Get(selection.clone()),
        }
    }
}

impl Clone for StreamRequest {
    fn clone(&self) -> (copy: StreamRequest)
        ensures
            copy == *self,
    {
        match self {
            StreamRequest::Start { kind, target } => StreamRequest::Start {
                kind: *kind,
                target: target.clone(),
            },
            StreamRequest::Stop { handle } => StreamRequest::Stop { handle: *handle },
        }
    }
}

impl ActionRequest {
    /// What the command applies to.
    pub open spec fn target(self) -> Selection {
        match self {
            ActionRequest::Delete(selection) => selection,
            ActionRequest::Describe(selection) => selection,
        }
    }

    /// The fetch that brings the affected kind up to date once the command
    /// has succeeded.
    pub open spec fn follow_up_spec(self) -> QueryRequest {
        QueryRequest::List(self.target().widened())
    }

    /// The kind that the command affects.
    pub fn kind(&self) -> (kind: ResourceKind)
        ensures
            kind == self.target().kind,
    {
        match self {
            ActionRequest::Delete(selection) => selection.kind,
            ActionRequest::Describe(selection) => selection.kind,
        }
    }

    /// The fetch that brings the affected kind up to date once the command
    /// has succeeded: a listing of that kind in the namespace of the command.
    pub fn follow_up(&self) -> (query: QueryRequest)
        ensures
            query == self.follow_up_spec(),
            query.target().kind == self.target().kind,
    {
        let selection = match self {
            ActionRequest::Delete(selection) => selection,
            ActionRequest::Describe(selection) => selection,
        };
        QueryRequest::List(
            Selection { kind: selection.kind, namespace: copy_text(&selection.namespace), name: None },
        )
    }
}

impl Clone for ActionRequest {
    fn clone(&self) -> (copy: ActionRequest)
        ensures
            copy == *self,
    {
        match self {
            ActionRequest::Delete(selection) => ActionRequest::Delete(selection.clone()),
            ActionRequest::Describe(selection) => ActionRequest::Describe(selection.clone()),
        }
    }
}

} // verus!
