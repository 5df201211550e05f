//! The decisions of the sync loop. The loop waits for a tick, fetches,
//! and writes the fetched nodes one by one; `step` decides, from the state
//! and from what just happened, what happens next. The caller does the
//! waiting, the fetching and the writing.

use vstd::prelude::*;
use crate::node::{node_views, normalized, Node, NodeExport, NodeExportView, NodeView};
use crate::timestamp::timestamp_representable;

verus! {

/// Why a cycle ended before all its records were written.
#[derive(Debug, Clone, Copy, PartialEq, Eq)]
pub enum Failure {
    /// The remote call failed; nothing was written.
    Transport,
    /// The record at `index` has a first observation with no representable
    /// date. The records before it were written, it and the rest were not.
    Conversion { index: usize },
    /// The store refused the write of the record at `index`. The records
    /// before it stay written.
    StoreWrite { index: usize },
}

/// Where the loop stands.
pub enum SyncState {
    /// Idle until the next tick.
    Waiting,
    /// In a cycle, with the remote call outstanding.
    Fetching,
    /// In a cycle, with the write of `nodes[next]` outstanding.
    Writing { nodes: Vec<Node>, next: usize },
}

/// What just happened.
pub enum SyncEvent {
    /// The timer fired.
    Tick,
    /// The remote call returned these records.
    Fetched(Vec<Node>),
    /// The remote call failed.
    FetchFailed,
    /// The store took the write (as an insert or as an ignored conflict).
    WriteDone,
    /// The store refused the write.
    WriteFailed,
}

/// What the caller does next.
pub enum SyncAction {
    /// Wait for the next tick: the cycle is complete.
    AwaitTick,
    /// Call the remote API.
    Fetch,
    /// Insert this row unless its key exists.
    Insert(NodeExport),
    /// Report the failure, then wait for the next tick.
    Report(Failure),
    /// Nothing: the event does not belong to the state and was ignored.
    Nothing,
}

/// What a `SyncState` holds.
pub enum SyncStateView {
    Waiting,
    Fetching,
    Writing { nodes: Seq<NodeView>, next: nat },
}

/// What a `SyncEvent` holds.
pub enum SyncEventView {
    Tick,
    Fetched(Seq<NodeView>),
    FetchFailed,
    WriteDone,
    WriteFailed,
}

/// What a `SyncAction` holds.
pub enum SyncActionView {
    AwaitTick,
    Fetch,
    Insert(NodeExportView),
    Report(Failure),
    Nothing,
}

impl View for SyncState {
    type V = SyncStateView;

    open spec fn view(&self) -> SyncStateView {
        match *self {
            SyncState::Waiting => SyncStateView::Waiting,
            SyncState::Fetching => SyncStateView::Fetching,
            SyncState::Writing { nodes, next } => SyncStateView::Writing {
                nodes: node_views(nodes@),
                next: next as nat,
            },
        }
    }
}

impl View for SyncEvent {
    type V = SyncEventView;

    open spec fn view(&self) -> SyncEventView {
        match *self {
            SyncEvent::Tick => SyncEventView::Tick,
            SyncEvent::Fetched(nodes) => SyncEventView::Fetched(node_views(nodes@)),
            SyncEvent::FetchFailed => SyncEventView::FetchFailed,
            SyncEvent::WriteDone => SyncEventView::WriteDone,
            SyncEvent::WriteFailed => SyncEventView::WriteFailed,
        }
    }
}

impl View for SyncAction {
    type V = SyncActionView;

    open spec fn view(&self) -> SyncActionView {
        match *self {
            SyncAction::AwaitTick => SyncActionView::AwaitTick,
            SyncAction::Fetch => SyncActionView::Fetch,
            SyncAction::Insert(row) => SyncActionView::Insert(row@),
            SyncAction::Report(failure) => SyncActionView::Report(failure),
            SyncAction::Nothing => SyncActionView::Nothing,
        }
    }
}

/// The cycle's next move once the records before `from` are written: the
/// cycle is complete when none is left; it ends with a conversion failure
/// when the record at `from` cannot be normalised; else that record's row
/// is to be inserted.
pub open spec fn resume(nodes: Seq<NodeView>, from: nat) -> (SyncStateView, SyncActionView) {
    if from >= nodes.len() {
        (SyncStateView::Waiting, SyncActionView::AwaitTick)
    } else if !timestamp_representable(nodes[from as int].first_seen) {
        (
            SyncStateView::Waiting,
            SyncActionView::Report(Failure::Conversion { index: from as usize }),
        )
    } else {
        (
            SyncStateView::Writing { nodes, next: from },
            SyncActionView::Insert(normalized(nodes[from as int])),
        )
    }
}

/// The transition function of the sync loop.
pub open spec fn step_spec(state: SyncStateView, event: SyncEventView) -> (
    SyncStateView,
    SyncActionView,
) {
    match (state, event) {
        (SyncStateView::Waiting, SyncEventView::Tick) => (
            SyncStateView::Fetching,
            SyncActionView::Fetch,
        ),
        (SyncStateView::Fetching, SyncEventView::Fetched(nodes)) => resume(nodes, 0),
        (SyncStateView::Fetching, SyncEventView::FetchFailed) => (
            SyncStateView::Waiting,
            SyncActionView::Report(Failure::Transport),
        ),
        (SyncStateView::Writing { nodes, next }, SyncEventView::WriteDone) => resume(
            nodes,
            next + 1,
        ),
        (SyncStateView::Writing { nodes, next }, SyncEventView::WriteFailed) => (
            SyncStateView::Waiting,
            SyncActionView::Report(Failure::StoreWrite { index: next as usize }),
        ),
        (state, _) => (state, SyncActionView::Nothing),
    }
}

/// Continues a cycle at the record `from`.
fn resume_at(nodes: Vec<Node>, from: usize) -> (next: (SyncState, SyncAction))
    ensures
        (next.0@, next.1@) == resume(node_views(nodes@), from as nat),
{
    if from >= nodes.len() {
        return (SyncState::Waiting, SyncAction::AwaitTick);
    }
    match nodes[from].normalize() {
        Some(row) => (SyncState::Writing { nodes, next: from }, SyncAction::Insert(row)),
        None => (SyncState::Waiting, SyncAction::Report(Failure::Conversion { index: from })),
    }
}

impl SyncState {
    /// The state in which the loop starts: waiting for its first tick.
    pub fn new() -> (state: SyncState)
        ensures
            state@ == SyncStateView::Waiting,
    {
        SyncState::Waiting
    }

    /// Whether the loop is in a cycle.
    pub fn is_syncing(&self) -> (syncing: bool)
        ensures
            syncing == !(self@ is Waiting),
    {
        match self {
            SyncState::Waiting => false,
            _ => true,
        }
    }
}

/// One decision of the sync loop: the state after `event`, and what to do
/// next. A tick starts a cycle with the remote call; a failed call ends it
/// with nothing written; fetched records are normalised and handed out for
/// insertion one by one, in order; a refused write or a record that cannot
/// be normalised ends the cycle there. Every cycle ends in `Waiting`.
pub fn step(state: SyncState, event: SyncEvent) -> (next: (SyncState, SyncAction))
    ensures
        (next.0@, next.1@) == step_spec(state@, event@),
{
    match state {
        SyncState::Waiting => match event {
            SyncEvent::Tick => (SyncState::Fetching, SyncAction::Fetch),
            _ => (SyncState::Waiting, SyncAction::Nothing),
        },
        SyncState::Fetching => match event {
            SyncEvent::Fetched(nodes) => resume_at(nodes, 0),
            SyncEvent::FetchFailed => (
                SyncState::Waiting,
                SyncAction::Report(Failure::Transport),
            ),
            _ => (SyncState::Fetching, SyncAction::Nothing),
        },
        SyncState::Writing { nodes, next } => match event {
            SyncEvent::WriteDone => {
                if next >= nodes.len() {
                    (SyncState::Waiting, SyncAction::AwaitTick)
                } else {
                    resume_at(nodes, next + 1)
                }
            },
            SyncEvent::WriteFailed => (
                SyncState::Waiting,
                SyncAction::Report(Failure::StoreWrite { index: next }),
            ),
            _ => (SyncState::Writing { nodes, next }, SyncAction::Nothing),
        },
    }
}

} // verus!
