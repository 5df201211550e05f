use node_sync::cycle::run_cycle;
use node_sync::node::{Node, NodeExport};
use node_sync::store::NodeTable;
use node_sync::sync::{step, Failure, SyncAction, SyncEvent, SyncState};
use node_sync::timestamp::MAX_TIMESTAMP;

fn node(key: &str, alias: &str, capacity: i64, first_seen: i64) -> Node {
    Node::new(key.to_string(), alias.to_string(), capacity, first_seen)
}

fn row(key: &str, alias: &str) -> NodeExport {
    NodeExport::new(key.to_string(), alias.to_string(), "1".to_string(), "t".to_string())
}

fn columns(table: &NodeTable) -> Vec<(String, String, String, String)> {
    let mut out = Vec::new();
    for r in table.scan() {
        out.push((
            r.public_key().to_string(),
            r.alias().to_string(),
            r.capacity().to_string(),
            r.first_seen().to_string(),
        ));
    }
    out
}

fn response() -> Vec<Node> {
    vec![
        node("k1", "one", 150_000_000, 1601429940),
        node("k2", "two", 0, 0),
        node("k1", "again", 5, 5),
    ]
}

#[test]
fn empty_table_scans_to_nothing() {
    let table = NodeTable::new();
    assert_eq!(table.len(), 0);
    assert!(table.scan().is_empty());
}

#[test]
fn insert_if_absent_ignores_conflicts() {
    let mut table = NodeTable::new();
    assert!(table.insert_if_absent(row("k", "A")));
    assert!(!table.insert_if_absent(row("k", "B")));
    assert_eq!(table.len(), 1);
    let rows = table.scan();
    assert_eq!(rows[0].public_key(), "k");
    assert_eq!(rows[0].alias(), "A");
}

#[test]
fn keys_stay_pairwise_distinct() {
    let mut table = NodeTable::new();
    for key in ["a", "b", "a", "c", "b", "a"] {
        table.insert_if_absent(row(key, key));
    }
    let rows = table.scan();
    assert_eq!(rows.len(), 3);
    for i in 0..rows.len() {
        for j in (i + 1)..rows.len() {
            assert_ne!(rows[i].public_key(), rows[j].public_key());
        }
    }
    assert!(table.contains_key_of(&row("c", "x")));
    assert!(!table.contains_key_of(&row("d", "x")));
}

#[test]
fn scan_keeps_insertion_order() {
    let mut table = NodeTable::new();
    table.insert_if_absent(row("b", "1"));
    table.insert_if_absent(row("a", "2"));
    let rows = table.scan();
    assert_eq!(rows[0].public_key(), "b");
    assert_eq!(rows[1].public_key(), "a");
}

#[test]
fn cycle_writes_normalized_rows() {
    let mut table = NodeTable::new();
    assert_eq!(run_cycle(&mut table, Some(response())), None);
    assert_eq!(
        columns(&table),
        vec![
            (
                "k1".to_string(),
                "one".to_string(),
                "1.5".to_string(),
                "2020-09-30T01:39:00Z".to_string()
            ),
            (
                "k2".to_string(),
                "two".to_string(),
                "0".to_string(),
                "1970-01-01T00:00:00Z".to_string()
            ),
        ]
    );
}

#[test]
fn second_cycle_on_same_response_changes_nothing() {
    let mut table = NodeTable::new();
    run_cycle(&mut table, Some(response()));
    let after_first = columns(&table);
    assert_eq!(run_cycle(&mut table, Some(response())), None);
    assert_eq!(columns(&table), after_first);
}

#[test]
fn later_alias_does_not_replace_stored_alias() {
    let mut table = NodeTable::new();
    run_cycle(&mut table, Some(vec![node("k", "A", 1, 1)]));
    run_cycle(&mut table, Some(vec![node("k", "B", 2, 2)]));
    let rows = table.scan();
    assert_eq!(rows.len(), 1);
    assert_eq!(rows[0].alias(), "A");
    assert_eq!(rows[0].capacity(), "0.00000001");
    assert_eq!(rows[0].first_seen(), "1970-01-01T00:00:01Z");
}

#[test]
fn failed_fetch_leaves_table_unchanged() {
    let mut table = NodeTable::new();
    run_cycle(&mut table, Some(response()));
    let before = columns(&table);
    assert_eq!(run_cycle(&mut table, None), Some(Failure::Transport));
    assert_eq!(columns(&table), before);
}

#[test]
fn failed_fetch_on_empty_table() {
    let mut table = NodeTable::new();
    assert_eq!(run_cycle(&mut table, None), Some(Failure::Transport));
    assert_eq!(table.len(), 0);
}

#[test]
fn empty_response_completes_without_writes() {
    let mut table = NodeTable::new();
    assert_eq!(run_cycle(&mut table, Some(Vec::new())), None);
    assert_eq!(table.len(), 0);
}

#[test]
fn conversion_failure_ends_cycle_at_that_record() {
    let mut table = NodeTable::new();
    let fetched = vec![
        node("k1", "one", 1, 1),
        node("k2", "two", 1, MAX_TIMESTAMP + 1),
        node("k3", "three", 1, 1),
    ];
    assert_eq!(run_cycle(&mut table, Some(fetched)), Some(Failure::Conversion { index: 1 }));
    let rows = table.scan();
    assert_eq!(rows.len(), 1);
    assert_eq!(rows[0].public_key(), "k1");
}

#[test]
fn loop_starts_waiting() {
    assert!(!SyncState::new().is_syncing());
}

#[test]
fn tick_starts_a_cycle_with_the_fetch() {
    let (state, action) = step(SyncState::new(), SyncEvent::Tick);
    assert!(matches!(state, SyncState::Fetching));
    assert!(state.is_syncing());
    assert!(matches!(action, SyncAction::Fetch));
}

#[test]
fn failed_fetch_returns_to_waiting() {
    let (state, action) = step(SyncState::Fetching, SyncEvent::FetchFailed);
    assert!(matches!(state, SyncState::Waiting));
    assert!(matches!(action, SyncAction::Report(Failure::Transport)));
}

#[test]
fn fetched_records_are_handed_out_in_order() {
    let (state, action) = step(SyncState::Fetching, SyncEvent::Fetched(response()));
    assert!(matches!(state, SyncState::Writing { next: 0, .. }));
    match action {
        SyncAction::Insert(r) => {
            assert_eq!(r.public_key(), "k1");
            assert_eq!(r.capacity(), "1.5");
        }
        _ => panic!("expected an insert"),
    }
    let (state, action) = step(state, SyncEvent::WriteDone);
    assert!(matches!(state, SyncState::Writing { next: 1, .. }));
    match action {
        SyncAction::Insert(r) => assert_eq!(r.public_key(), "k2"),
        _ => panic!("expected an insert"),
    }
    let (state, _) = step(state, SyncEvent::WriteDone);
    let (state, action) = step(state, SyncEvent::WriteDone);
    assert!(matches!(state, SyncState::Waiting));
    assert!(matches!(action, SyncAction::AwaitTick));
}

#[test]
fn refused_write_ends_the_cycle() {
    let (state, _) = step(SyncState::Fetching, SyncEvent::Fetched(response()));
    let (state, _) = step(state, SyncEvent::WriteDone);
    let (state, action) = step(state, SyncEvent::WriteFailed);
    assert!(matches!(state, SyncState::Waiting));
    assert!(matches!(action, SyncAction::Report(Failure::StoreWrite { index: 1 })));
}

#[test]
fn unconvertible_first_record_ends_the_cycle() {
    let fetched = vec![node("k", "a", 1, i64::MAX)];
    let (state, action) = step(SyncState::Fetching, SyncEvent::Fetched(fetched));
    assert!(matches!(state, SyncState::Waiting));
    assert!(matches!(action, SyncAction::Report(Failure::Conversion { index: 0 })));
}

#[test]
fn empty_response_ends_the_cycle() {
    let (state, action) = step(SyncState::Fetching, SyncEvent::Fetched(Vec::new()));
    assert!(matches!(state, SyncState::Waiting));
    assert!(matches!(action, SyncAction::AwaitTick));
}

#[test]
fn events_out_of_place_are_ignored() {
    let (state, action) = step(SyncState::Waiting, SyncEvent::WriteDone);
    assert!(matches!(state, SyncState::Waiting));
    assert!(matches!(action, SyncAction::Nothing));
    let (state, action) = step(SyncState::Fetching, SyncEvent::Tick);
    assert!(matches!(state, SyncState::Fetching));
    assert!(matches!(action, SyncAction::Nothing));
    let (state, _) = step(SyncState::Fetching, SyncEvent::Fetched(response()));
    let (state, action) = step(state, SyncEvent::Tick);
    assert!(matches!(state, SyncState::Writing { next: 0, .. }));
    assert!(matches!(action, SyncAction::Nothing));
}
