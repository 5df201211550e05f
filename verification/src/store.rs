//! The node table: rows keyed by public key, written by insert-if-absent
//! and read by a full scan.

use vstd::prelude::*;
use crate::node::{row_views, NodeExport, NodeExportView};

verus! {

/// Whether some row of `rows` has the key `key`.
pub open spec fn has_key(rows: Seq<NodeExportView>, key: Seq<char>) -> bool {
    exists|i: int| 0 <= i < rows.len() && (#[trigger] rows[i]).public_key == key
}

/// No two rows of `rows` have the same key.
pub open spec fn distinct_keys(rows: Seq<NodeExportView>) -> bool {
    forall|i: int, j: int|
        0 <= i < j < rows.len() ==> (#[trigger] rows[i]).public_key != (
        #[trigger] rows[j]).public_key
}

/// The table after a conflict-ignoring insert of `row`: unchanged where a
/// row with that key exists, else with `row` as its last row.
pub open spec fn insert_if_absent(rows: Seq<NodeExportView>, row: NodeExportView) -> Seq<
    NodeExportView,
> {
    if has_key(rows, row.public_key) {
        rows
    } else {
        rows.push(row)
    }
}

/// The table after the conflict-ignoring inserts of `writes`, in order.
pub open spec fn apply_writes(rows: Seq<NodeExportView>, writes: Seq<NodeExportView>) -> Seq<
    NodeExportView,
>
    decreases writes.len(),
{
    if writes.len() == 0 {
        rows
    } else {
        insert_if_absent(apply_writes(rows, writes.drop_last()), writes.last())
    }
}

/// A conflict-ignoring insert keeps every row in its place, adds at most one
/// row, leaves the key present, and keeps the keys distinct.
pub proof fn lemma_insert_if_absent(rows: Seq<NodeExportView>, row: NodeExportView)
    ensures
        rows.len() <= insert_if_absent(rows, row).len() <= rows.len() + 1,
        forall|i: int| 0 <= i < rows.len() ==> insert_if_absent(rows, row)[i] == rows[i],
        has_key(insert_if_absent(rows, row), row.public_key),
        forall|k: Seq<char>| has_key(rows, k) ==> has_key(insert_if_absent(rows, row), k),
        distinct_keys(rows) ==> distinct_keys(insert_if_absent(rows, row)),
{
    let after = insert_if_absent(rows, row);
    if !has_key(rows, row.public_key) {
        assert(after[rows.len() as int].public_key == row.public_key);
        assert forall|k: Seq<char>| has_key(rows, k) implies has_key(after, k) by {
            let i = choose|i: int| 0 <= i < rows.len() && (#[trigger] rows[i]).public_key == k;
            assert(after[i].public_key == k);
        }
        if distinct_keys(rows) {
            assert forall|i: int, j: int| 0 <= i < j < after.len() implies (#[trigger] after[i]).public_key
                != (#[trigger] after[j]).public_key by {
                if j == rows.len() {
                    assert(rows[i].public_key != row.public_key);
                } else {
                    assert(rows[i].public_key != rows[j].public_key);
                }
            }
        }
    }
}

/// Uniqueness: a sequence of conflict-ignoring inserts into a table whose
/// keys are pairwise distinct leaves them pairwise distinct.
pub proof fn lemma_writes_keep_keys_distinct(
    rows: Seq<NodeExportView>,
    writes: Seq<NodeExportView>,
)
    requires
        distinct_keys(rows),
    ensures
        distinct_keys(apply_writes(rows, writes)),
    decreases writes.len(),
{
    if writes.len() > 0 {
        lemma_writes_keep_keys_distinct(rows, writes.drop_last());
        lemma_insert_if_absent(apply_writes(rows, writes.drop_last()), writes.last());
    }
}

/// Inserts never revise or remove: every row that was in the table is
/// still in its place afterwards, and every key that was present still is.
pub proof fn lemma_writes_keep_rows(rows: Seq<NodeExportView>, writes: Seq<NodeExportView>)
    ensures
        rows.len() <= apply_writes(rows, writes).len(),
        forall|i: int| 0 <= i < rows.len() ==> apply_writes(rows, writes)[i] == rows[i],
        forall|k: Seq<char>| has_key(rows, k) ==> has_key(apply_writes(rows, writes), k),
    decreases writes.len(),
{
    if writes.len() > 0 {
        lemma_writes_keep_rows(rows, writes.drop_last());
        lemma_insert_if_absent(apply_writes(rows, writes.drop_last()), writes.last());
    }
}

/// Conflict-ignore: where the table holds a row for a key, that row is,
/// after any sequence of inserts, still the one and only row for the key,
/// with the values it had, whatever the inserts carried for that key.
pub proof fn lemma_existing_row_wins(
    rows: Seq<NodeExportView>,
    writes: Seq<NodeExportView>,
    i: int,
)
    requires
        distinct_keys(rows),
        0 <= i < rows.len(),
    ensures
        i < apply_writes(rows, writes).len(),
        apply_writes(rows, writes)[i] == rows[i],
        forall|j: int|
            0 <= j < apply_writes(rows, writes).len() && (#[trigger] apply_writes(
                rows,
                writes,
            )[j]).public_key == rows[i].public_key ==> j == i,
{
    let after = apply_writes(rows, writes);
    lemma_writes_keep_rows(rows, writes);
    lemma_writes_keep_keys_distinct(rows, writes);
    assert forall|j: int|
        0 <= j < after.len() && (#[trigger] after[j]).public_key
            == rows[i].public_key implies j == i by {
        if j < i {
            assert(after[j].public_key != after[i].public_key);
        } else if i < j {
            assert(after[i].public_key != after[j].public_key);
        }
    }
}

/// After the inserts of `writes`, every key of `writes` is in the table.
pub proof fn lemma_written_keys_present(rows: Seq<NodeExportView>, writes: Seq<NodeExportView>)
    ensures
        forall|i: int|
            0 <= i < writes.len() ==> has_key(
                apply_writes(rows, writes),
                (#[trigger] writes[i]).public_key,
            ),
    decreases writes.len(),
{
    if writes.len() > 0 {
        let before = apply_writes(rows, writes.drop_last());
        lemma_written_keys_present(rows, writes.drop_last());
        lemma_insert_if_absent(before, writes.last());
        assert forall|i: int| 0 <= i < writes.len() implies has_key(
            apply_writes(rows, writes),
            (#[trigger] writes[i]).public_key,
        ) by {
            if i < writes.len() - 1 {
                assert(writes.drop_last()[i] == writes[i]);
                assert(has_key(before, writes.drop_last()[i].public_key));
            }
        }
    }
}

/// Inserts of rows whose keys are all in the table change nothing.
pub proof fn lemma_present_keys_write_nothing(
    rows: Seq<NodeExportView>,
    writes: Seq<NodeExportView>,
)
    requires
        forall|i: int| 0 <= i < writes.len() ==> has_key(rows, (#[trigger] writes[i]).public_key),
    ensures
        apply_writes(rows, writes) == rows,
    decreases writes.len(),
{
    if writes.len() > 0 {
        assert forall|i: int| 0 <= i < writes.drop_last().len() implies has_key(
            rows,
            (#[trigger] writes.drop_last()[i]).public_key,
        ) by {
            assert(writes.drop_last()[i] == writes[i]);
        }
        lemma_present_keys_write_nothing(rows, writes.drop_last());
        assert(has_key(rows, writes[writes.len() - 1].public_key));
    }
}

/// Idempotence: the same inserts a second time add no row and change none.
pub proof fn lemma_writes_idempotent(rows: Seq<NodeExportView>, writes: Seq<NodeExportView>)
    ensures
        apply_writes(apply_writes(rows, writes), writes) == apply_writes(rows, writes),
{
    lemma_written_keys_present(rows, writes);
    lemma_present_keys_write_nothing(apply_writes(rows, writes), writes);
}

/// An in-memory node table with the store's two operations.
pub struct NodeTable {
    rows: Vec<NodeExport>,
}

impl View for NodeTable {
    type V = Seq<NodeExportView>;

    closed spec fn view(&self) -> Seq<NodeExportView> {
        row_views(self.rows@)
    }
}

impl NodeTable {
    /// The table's invariant: the public key is a unique key.
    pub open spec fn wf(&self) -> bool {
        distinct_keys(self@)
    }

    /// An empty table.
    pub fn new() -> (table: NodeTable)
        ensures
            table@ == Seq::<NodeExportView>::empty(),
            table.wf(),
    {
        let table = NodeTable { rows: Vec::new() };
        assert(table@ =~= Seq::<NodeExportView>::empty());
        table
    }

    /// The number of rows.
    pub fn len(&self) -> (n: usize)
        ensures
            n == self@.len(),
    {
        self.rows.len()
    }

    /// Whether the table holds a row with the key of `row`.
    pub fn contains_key_of(&self, row: &NodeExport) -> (found: bool)
        ensures
            found == has_key(self@, row@.public_key),
    {
        let mut i: usize = 0;
        while i < self.rows.len()
            invariant
                i <= self.rows.len(),
                forall|j: int| 0 <= j < i ==> (#[trigger] self@[j]).public_key != row@.public_key,
            decreases self.rows.len() - i,
        {
            if self.rows[i].same_key(row) {
                assert(self@[i as int].public_key == row@.public_key);
                return true;
            }
            i += 1;
        }
        false
    }

    /// Inserts `row` unless a row with its key exists; says whether it did.
    /// An existing row is never revised.
    pub fn insert_if_absent(&mut self, row: NodeExport) -> (inserted: bool)
        requires
            old(self).wf(),
        ensures
            final(self).wf(),
            final(self)@ == insert_if_absent(old(self)@, row@),
            inserted == !has_key(old(self)@, row@.public_key),
    {
        proof {
            lemma_insert_if_absent(self@, row@);
        }
        if self.contains_key_of(&row) {
            false
        } else {
            self.rows.push(row);
            assert(self@ =~= old(self)@.push(row@));
            true
        }
    }

    /// All rows, in the order in which they were inserted.
    pub fn scan(&self) -> (rows: Vec<NodeExport>)
        ensures
            row_views(rows@) == self@,
    {
        let mut out: Vec<NodeExport> = Vec::new();
        let mut i: usize = 0;
        while i < self.rows.len()
            invariant
                i <= self.rows.len(),
                out@.len() == i,
                forall|j: int| 0 <= j < i ==> (#[trigger] out@[j])@ == self.rows@[j]@,
            decreases self.rows.len() - i,
        {
            out.push(self.rows[i].duplicate());
            i += 1;
        }
        assert(row_views(out@) =~= self@);
        out
    }
}

} // verus!
