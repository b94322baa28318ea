//! Tests of the apply pipeline and the snapshot protocol.

use rxqlite::log_store::{EntryPayload, LogEntry, LogStore};
use rxqlite::message::{Message, MessageResponse};
use rxqlite::state_machine::StateMachineStore;
use rxqlite::types::{LogId, Membership, Node};

fn blank(index: u64) -> LogEntry {
    LogEntry {
        log_id: LogId { term: 1, node_id: 1, index },
        payload: EntryPayload::Blank,
    }
}

fn write(index: u64, sql: &str) -> LogEntry {
    LogEntry {
        log_id: LogId { term: 1, node_id: 1, index },
        payload: EntryPayload::Normal(Message::Execute(sql.to_string(), vec![])),
    }
}

fn membership(index: u64, voters: &[u64]) -> LogEntry {
    LogEntry {
        log_id: LogId { term: 1, node_id: 1, index },
        payload: EntryPayload::Membership(Membership {
            voters: voters.to_vec(),
            nodes: voters
                .iter()
                .map(|id| {
                    (
                        *id,
                        Node {
                            rpc_addr: format!("127.0.0.1:2{id}"),
                            api_addr: format!("127.0.0.1:3{id}"),
                        },
                    )
                })
                .collect(),
        }),
    }
}

fn empty_rows() -> Option<MessageResponse> {
    Some(MessageResponse::Rows(vec![]))
}

#[test]
fn apply_advances_in_order() {
    let mut sm = StateMachineStore::new();
    assert!(sm.applied_state().0.is_none());

    let r = sm.apply_entry(blank(0), None);
    assert!(r.is_none());
    assert_eq!(sm.applied_state().0.unwrap().index, 0);

    let r = sm.apply_entry(write(1, "CREATE TABLE t(id INTEGER)"), empty_rows());
    assert!(matches!(r, Some(MessageResponse::Rows(rows)) if rows.is_empty()));
    assert_eq!(sm.applied_state().0.unwrap().index, 1);

    let r = sm.apply_entry(membership(2, &[1, 2, 3]), None);
    assert!(r.is_none());
    let (applied, stored) = sm.applied_state();
    assert_eq!(applied.unwrap().index, 2);
    assert_eq!(stored.log_id.unwrap().index, 2);
    assert_eq!(stored.membership.voters, vec![1, 2, 3]);
}

#[test]
fn sql_errors_are_replies_not_failures() {
    let mut sm = StateMachineStore::new();
    // a constraint violation is a deterministic outcome every replica
    // must agree on: it travels as a normal reply
    let reply = sm.apply_entry(
        write(0, "INSERT INTO t(id) VALUES (1)"),
        Some(MessageResponse::Error("UNIQUE constraint failed".to_string())),
    );
    assert!(matches!(reply, Some(MessageResponse::Error(e)) if e.contains("UNIQUE")));
    // the entry still counts as applied
    assert_eq!(sm.applied_state().0.unwrap().index, 0);
}

#[test]
fn crash_during_apply_batch() {
    // the whole batch, applied in one piece on a healthy node
    let batch: Vec<LogEntry> = vec![
        write(0, "CREATE TABLE t(id INTEGER PRIMARY KEY, v TEXT)"),
        write(1, "INSERT INTO t(v) VALUES ('x')"),
        membership(2, &[1, 2]),
        write(3, "INSERT INTO t(v) VALUES ('y')"),
    ];
    let reply_for = |e: &LogEntry| match e.payload {
        EntryPayload::Normal(_) => empty_rows(),
        _ => None,
    };

    let mut healthy = StateMachineStore::new();
    for e in batch.iter() {
        healthy.apply_entry(e.clone(), reply_for(e));
    }

    // the crashing node applies two entries, dies, and restarts: its
    // applied position tells it to resume from exactly the next index
    let mut crashed = StateMachineStore::new();
    for e in batch.iter().take(2) {
        crashed.apply_entry(e.clone(), reply_for(e));
    }
    let resume_at = crashed.applied_state().0.unwrap().index + 1;
    assert_eq!(resume_at, 2);
    for e in batch.iter().filter(|e| e.log_id.index >= resume_at) {
        crashed.apply_entry(e.clone(), reply_for(e));
    }

    let (a1, m1) = healthy.applied_state();
    let (a2, m2) = crashed.applied_state();
    assert_eq!(a1, a2);
    assert_eq!(m1.log_id, m2.log_id);
    assert_eq!(m1.membership.voters, m2.membership.voters);
}

#[test]
fn snapshot_round_trip() {
    let mut source = StateMachineStore::new();
    source.apply_entry(membership(0, &[1, 2, 3]), None);
    source.apply_entry(write(1, "CREATE TABLE t(id INTEGER)"), empty_rows());

    let db_bytes: Vec<u8> = b"pretend this is a sqlite file".to_vec();
    source.get_snapshot_builder();
    let built = source.build_snapshot(db_bytes.clone());
    let meta = built.meta.clone();
    let data = built.data.clone();
    assert_eq!(data, db_bytes);
    assert_eq!(meta.last_log_id.unwrap().index, 1);

    // install on a fresh node (a lagging member being bootstrapped)
    let mut target = StateMachineStore::new();
    let buf = target.begin_receiving_snapshot();
    assert!(buf.is_empty());
    target.install_snapshot(meta, data);

    // the database bytes to write locally are byte-identical to the
    // capture, and the applied state equals the captured metadata
    let stored = target.get_current_snapshot().unwrap();
    assert_eq!(stored.data, db_bytes);
    let (applied, stored_membership) = target.applied_state();
    assert_eq!(applied.unwrap().index, 1);
    assert_eq!(stored_membership.membership.voters, vec![1, 2, 3]);
    assert_eq!(stored_membership.log_id.unwrap().index, 0);
}

#[test]
fn snapshot_ids_never_repeat() {
    let mut sm = StateMachineStore::new();
    sm.apply_entry(blank(0), None);
    sm.get_snapshot_builder();
    let first_id = sm.build_snapshot(vec![1]).meta.snapshot_id;
    // a leadership change could reuse the same index later; the
    // sequence number still tells the snapshots apart
    sm.get_snapshot_builder();
    let second_id = sm.build_snapshot(vec![2]).meta.snapshot_id;
    assert_eq!(first_id.origin, second_id.origin);
    assert_ne!(first_id.seq, second_id.seq);
    assert_ne!(first_id, second_id);
}

#[test]
fn purge_after_snapshot() {
    let mut log = LogStore::new();
    let mut sm = StateMachineStore::new();
    let batch: Vec<LogEntry> = (0..5).map(blank).collect();
    log.append(batch.clone());
    for e in batch {
        sm.apply_entry(e, None);
    }
    // capture through index 4, then purge the log through it
    sm.get_snapshot_builder();
    let captured_through = sm.build_snapshot(vec![9, 9, 9]).meta.last_log_id.unwrap();
    assert_eq!(captured_through.index, 4);
    log.purge(captured_through);

    // every range at or below the watermark is empty
    assert_eq!(log.try_get_log_entries(0, 5).len(), 0);
    assert_eq!(log.try_get_log_entries(2, 4).len(), 0);
    assert_eq!(log.try_get_log_entries(0, 1).len(), 0);
    // and the log state still reports the watermark
    let state = log.get_log_state();
    assert_eq!(state.last_purged_log_id.unwrap(), captured_through);
    assert_eq!(state.last_log_id.unwrap(), captured_through);
}

#[test]
fn applied_position_is_monotonic() {
    let mut sm = StateMachineStore::new();
    let mut last: Option<u64> = None;
    for i in 0..10u64 {
        let reply = if i % 2 == 0 {
            sm.apply_entry(blank(i), None)
        } else {
            sm.apply_entry(write(i, "SELECT 1"), empty_rows())
        };
        if i % 2 == 0 {
            assert!(reply.is_none());
        }
        let now = sm.applied_state().0.unwrap().index;
        if let Some(prev) = last {
            assert!(now > prev);
            assert_eq!(now, prev + 1);
        }
        last = Some(now);
    }
}
