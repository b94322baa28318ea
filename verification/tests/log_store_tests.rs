//! Tests of the ordered log store: append, truncate, purge, range
//! reads, log state, and the vote and committed records.

use rxqlite::log_store::{EntryPayload, LogEntry, LogStore};
use rxqlite::message::Message;
use rxqlite::types::{LogId, Vote};

fn entry(term: u64, index: u64) -> LogEntry {
    LogEntry {
        log_id: LogId { term, node_id: 1, index },
        payload: EntryPayload::Blank,
    }
}

fn normal_entry(term: u64, index: u64, sql: &str) -> LogEntry {
    LogEntry {
        log_id: LogId { term, node_id: 1, index },
        payload: EntryPayload::Normal(Message::Execute(sql.to_string(), vec![])),
    }
}

#[test]
fn empty_log_state() {
    let store = LogStore::new();
    let state = store.get_log_state();
    assert!(state.last_purged_log_id.is_none());
    assert!(state.last_log_id.is_none());
}

#[test]
fn append_extends_the_tail() {
    let mut store = LogStore::new();
    store.append(vec![entry(1, 0), entry(1, 1), normal_entry(1, 2, "SELECT 1")]);
    let state = store.get_log_state();
    assert_eq!(state.last_log_id.unwrap().index, 2);
    store.append(vec![entry(2, 3)]);
    let state = store.get_log_state();
    assert_eq!(state.last_log_id.unwrap().index, 3);
    assert_eq!(state.last_log_id.unwrap().term, 2);
    assert!(state.last_purged_log_id.is_none());
}

#[test]
fn range_reads_are_exact() {
    let mut store = LogStore::new();
    store.append(vec![entry(1, 0), entry(1, 1), entry(1, 2), entry(1, 3)]);
    let r = store.try_get_log_entries(1, 3);
    assert_eq!(r.len(), 2);
    assert_eq!(r[0].log_id.index, 1);
    assert_eq!(r[1].log_id.index, 2);
    assert_eq!(store.try_get_log_entries(0, 100).len(), 4);
    assert_eq!(store.try_get_log_entries(4, 10).len(), 0);
    assert_eq!(store.try_get_log_entries(2, 2).len(), 0);
}

#[test]
fn truncate_removes_the_suffix() {
    let mut store = LogStore::new();
    store.append(vec![entry(1, 0), entry(1, 1), entry(2, 2), entry(2, 3)]);
    // a new leader overwrites the uncommitted suffix from index 2 on
    store.truncate(LogId { term: 2, node_id: 1, index: 2 });
    let state = store.get_log_state();
    assert_eq!(state.last_log_id.unwrap().index, 1);
    assert_eq!(store.try_get_log_entries(0, 10).len(), 2);
    // appending the replacement entries keeps the range contiguous
    store.append(vec![entry(3, 2)]);
    assert_eq!(store.get_log_state().last_log_id.unwrap().term, 3);
}

#[test]
fn purge_keeps_the_watermark() {
    let mut store = LogStore::new();
    store.append(vec![entry(1, 0), entry(1, 1), entry(1, 2), entry(1, 3)]);
    store.purge(LogId { term: 1, node_id: 1, index: 1 });
    let state = store.get_log_state();
    assert_eq!(state.last_purged_log_id.unwrap().index, 1);
    assert_eq!(state.last_log_id.unwrap().index, 3);
    assert_eq!(store.try_get_log_entries(0, 10).len(), 2);
    // purging everything: the state still reports the watermark as tail
    store.purge(LogId { term: 1, node_id: 1, index: 3 });
    let state = store.get_log_state();
    assert_eq!(state.last_purged_log_id.unwrap().index, 3);
    assert_eq!(state.last_log_id.unwrap().index, 3);
    assert_eq!(store.try_get_log_entries(0, 10).len(), 0);
    // the log keeps growing from the watermark
    store.append(vec![entry(2, 4)]);
    assert_eq!(store.get_log_state().last_log_id.unwrap().index, 4);
}

#[test]
fn vote_and_committed_records() {
    let mut store = LogStore::new();
    assert!(store.read_vote().is_none());
    assert!(store.read_committed().is_none());
    let vote = Vote { term: 3, node_id: 2, committed: true };
    store.save_vote(vote);
    assert_eq!(store.read_vote().unwrap(), vote);
    // last write wins
    let vote2 = Vote { term: 4, node_id: 1, committed: false };
    store.save_vote(vote2);
    assert_eq!(store.read_vote().unwrap(), vote2);
    let c = LogId { term: 3, node_id: 2, index: 7 };
    store.save_committed(Some(c));
    assert_eq!(store.read_committed().unwrap(), c);
}
