//! One whole sync cycle against a node table: what it writes, how it ends,
//! and what holds of the table afterwards.

use vstd::prelude::*;
use crate::node::{node_views, normalized, Node, NodeExportView, NodeView};
use crate::store::{
    apply_writes, distinct_keys, lemma_existing_row_wins, lemma_writes_idempotent,
    lemma_writes_keep_keys_distinct, NodeTable,
};
use crate::sync::{resume, step, Failure, SyncAction, SyncActionView, SyncEvent, SyncState};
use crate::timestamp::timestamp_representable;

verus! {

/// The number of records at the start of `nodes` that can be normalised:
/// the index of the first one whose first observation has no representable
/// date, or the length where there is none.
pub open spec fn convertible_prefix(nodes: Seq<NodeView>) -> nat
    decreases nodes.len(),
{
    if nodes.len() == 0 || !timestamp_representable(nodes[0].first_seen) {
        0
    } else {
        1 + convertible_prefix(nodes.drop_first())
    }
}

/// The stored forms of `nodes`, in order.
pub open spec fn normalized_all(nodes: Seq<NodeView>) -> Seq<NodeExportView> {
    nodes.map_values(|n: NodeView| normalized(n))
}

/// What the remote call gave, as the contracts see it.
pub open spec fn fetched_view(fetched: Option<Vec<Node>>) -> Option<Seq<NodeView>> {
    match fetched {
        Some(nodes) => Some(node_views(nodes@)),
        None => None,
    }
}

/// The rows that a cycle hands to the store when no write is refused: none
/// after a failed fetch, else the stored forms of the records up to the
/// first that cannot be normalised.
pub open spec fn cycle_writes(fetched: Option<Seq<NodeView>>) -> Seq<NodeExportView> {
    match fetched {
        Some(nodes) => normalized_all(nodes.take(convertible_prefix(nodes) as int)),
        None => Seq::empty(),
    }
}

/// How such a cycle ends.
pub open spec fn cycle_failure(fetched: Option<Seq<NodeView>>) -> Option<Failure> {
    match fetched {
        Some(nodes) => if convertible_prefix(nodes) < nodes.len() {
            Some(Failure::Conversion { index: convertible_prefix(nodes) as usize })
        } else {
            None
        },
        None => Some(Failure::Transport),
    }
}

/// The table after such a cycle.
pub open spec fn table_after_cycle(
    rows: Seq<NodeExportView>,
    fetched: Option<Seq<NodeView>>,
) -> Seq<NodeExportView> {
    apply_writes(rows, cycle_writes(fetched))
}

/// `convertible_prefix(nodes)` is `k` where the first `k` records can be
/// normalised and the one after them, if there is one, cannot.
pub proof fn lemma_convertible_prefix(nodes: Seq<NodeView>, k: nat)
    requires
        k <= nodes.len(),
        forall|j: int| 0 <= j < k ==> timestamp_representable((#[trigger] nodes[j]).first_seen),
        k < nodes.len() ==> !timestamp_representable(nodes[k as int].first_seen),
    ensures
        convertible_prefix(nodes) == k,
    decreases nodes.len(),
{
    if k > 0 {
        assert(timestamp_representable(nodes[0].first_seen));
        let rest = nodes.drop_first();
        assert forall|j: int| 0 <= j < k - 1 implies timestamp_representable(
            (#[trigger] rest[j]).first_seen,
        ) by {
            assert(rest[j] == nodes[j + 1]);
        }
        if k < nodes.len() {
            assert(rest[k - 1] == nodes[k as int]);
        }
        lemma_convertible_prefix(rest, (k - 1) as nat);
    }
}

/// Idempotence of sync: a second cycle on the same response adds no row and
/// changes none, and the keys of the table stay pairwise distinct.
pub proof fn lemma_cycle_idempotent(rows: Seq<NodeExportView>, fetched: Option<Seq<NodeView>>)
    requires
        distinct_keys(rows),
    ensures
        table_after_cycle(table_after_cycle(rows, fetched), fetched) == table_after_cycle(
            rows,
            fetched,
        ),
        distinct_keys(table_after_cycle(rows, fetched)),
{
    lemma_writes_idempotent(rows, cycle_writes(fetched));
    lemma_writes_keep_keys_distinct(rows, cycle_writes(fetched));
}

/// A cycle never revises a stored row: every row of the table is, after the
/// cycle, still in its place with the values it had, and is the only row
/// with its key, whatever the response carried for that key.
pub proof fn lemma_cycle_keeps_stored_rows(
    rows: Seq<NodeExportView>,
    fetched: Option<Seq<NodeView>>,
    i: int,
)
    requires
        distinct_keys(rows),
        0 <= i < rows.len(),
    ensures
        i < table_after_cycle(rows, fetched).len(),
        table_after_cycle(rows, fetched)[i] == rows[i],
        forall|j: int|
            0 <= j < table_after_cycle(rows, fetched).len() && (#[trigger] table_after_cycle(
                rows,
                fetched,
            )[j]).public_key == rows[i].public_key ==> j == i,
{
    lemma_existing_row_wins(rows, cycle_writes(fetched), i);
}

/// A cycle whose remote call fails leaves the table as it was.
pub proof fn lemma_failed_fetch_changes_nothing(rows: Seq<NodeExportView>)
    ensures
        table_after_cycle(rows, None) == rows,
        cycle_failure(None) == Some(Failure::Transport),
{
}

/// Runs one cycle of the sync loop on `table`, from the tick to the return
/// to waiting, with `fetched` as the outcome of the remote call (`None`
/// where it failed). Returns how the cycle ended.
pub fn run_cycle(table: &mut NodeTable, fetched: Option<Vec<Node>>) -> (failure: Option<Failure>)
    requires
        old(table).wf(),
    ensures
        final(table).wf(),
        final(table)@ == table_after_cycle(old(table)@, fetched_view(fetched)),
        failure == cycle_failure(fetched_view(fetched)),
{
    let ghost before = table@;
    let ghost response = fetched_view(fetched);
    let ghost nodes = match response {
        Some(nodes) => nodes,
        None => Seq::empty(),
    };
    let started = step(SyncState::new(), SyncEvent::Tick);
    let event = match fetched {
        Some(nodes) => SyncEvent::Fetched(nodes),
        None => SyncEvent::FetchFailed,
    };
    let first = step(started.0, event);
    let mut state = first.0;
    let mut action = first.1;
    let ghost mut done: nat = 0;
    assert(normalized_all(nodes.take(0)) =~= Seq::<NodeExportView>::empty());
    loop
        invariant
            table.wf(),
            done <= nodes.len(),
            response is Some ==> response == Some(nodes) && (state@, action@) == resume(
                nodes,
                done,
            ),
            response is None ==> nodes.len() == 0 && action@ == SyncActionView::Report(
                Failure::Transport,
            ),
            forall|j: int|
                0 <= j < done ==> timestamp_representable((#[trigger] nodes[j]).first_seen),
            table@ == apply_writes(before, normalized_all(nodes.take(done as int))),
            before == old(table)@,
            response == fetched_view(fetched),
        decreases nodes.len() - done,
    {
        match action {
            SyncAction::Insert(row) => {
                let ghost written = normalized_all(nodes.take(done as int + 1));
                assert(written.drop_last() =~= normalized_all(nodes.take(done as int)));
                assert(written.last() == normalized(nodes[done as int]));
                table.insert_if_absent(row);
                let next = step(state, SyncEvent::WriteDone);
                state = next.0;
                action = next.1;
                proof {
                    done = done + 1;
                }
            },
            SyncAction::Report(failure) => {
                proof {
                    if response is Some {
                        lemma_convertible_prefix(nodes, done);
                    }
                }
                return Some(failure);
            },
            _ => {
                proof {
                    lemma_convertible_prefix(nodes, done);
                }
                return None;
            },
        }
    }
}

} // verus!
