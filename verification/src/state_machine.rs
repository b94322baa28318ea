//! The state-machine store: applies committed log entries in index
//! order to the node's database, tracks the applied position and the
//! last membership, and keeps the node's single current snapshot.
//!
//! Executing one SQL command is the embedded engine's work and happens
//! at the unverified edge: the apply step here receives the engine's
//! reply for a normal entry and is verified to hand it back unchanged,
//! in order, while advancing the applied position exactly one entry at
//! a time.

use vstd::prelude::*;

verus! {

use crate::types::{LogId, StoredMembership, StoredMembershipView};
use crate::log_store::{LogEntry, EntryPayload, entries_contiguous};
use crate::message::MessageResponse;

/// Identity of one snapshot: the log position it captures through and a
/// per-node sequence number. The pair is unique across a node's
/// lifetime even when indices are reused after a leadership change,
/// because the sequence number never repeats.
#[derive(Debug, Clone, Copy, PartialEq, Eq, Structural)]
pub struct SnapshotId {
    pub origin: Option<LogId>,
    pub seq: u64,
}

/// What a snapshot is tagged with: the position and membership it
/// captures, and its unique identity.
#[derive(Debug)]
pub struct SnapshotMeta {
    pub last_log_id: Option<LogId>,
    pub last_membership: StoredMembership,
    pub snapshot_id: SnapshotId,
}

/// The mathematical value of a `SnapshotMeta`.
pub struct SnapshotMetaView {
    pub last_log_id: Option<LogId>,
    pub last_membership: StoredMembershipView,
    pub snapshot_id: SnapshotId,
}

impl View for SnapshotMeta {
    type V = SnapshotMetaView;

    open spec fn view(&self) -> SnapshotMetaView {
        SnapshotMetaView {
            last_log_id: self.last_log_id,
            last_membership: self.last_membership@,
            snapshot_id: self.snapshot_id,
        }
    }
}

impl Clone for SnapshotMeta {
    fn clone(&self) -> (r: SnapshotMeta)
        ensures
            r@ == self@,
    {
        SnapshotMeta {
            last_log_id: self.last_log_id,
            last_membership: self.last_membership.clone(),
            snapshot_id: self.snapshot_id,
        }
    }
}

/// The node's current snapshot: its metadata and the verbatim bytes of
/// the database file at capture time. Exactly one is retained; a new
/// one replaces it wholesale.
#[derive(Debug)]
pub struct StoredSnapshot {
    pub meta: SnapshotMeta,
    pub data: Vec<u8>,
}

/// The mathematical value of a `StoredSnapshot`.
pub struct StoredSnapshotView {
    pub meta: SnapshotMetaView,
    pub data: Seq<u8>,
}

impl View for StoredSnapshot {
    type V = StoredSnapshotView;

    open spec fn view(&self) -> StoredSnapshotView {
        StoredSnapshotView { meta: self.meta@, data: self.data@ }
    }
}

/// The portable snapshot payload: the verbatim bytes of the database
/// file at capture time. No structure is imposed beyond the database's
/// own file format.
#[derive(Debug, Default)]
pub struct SqliteSnaphot {
    pub db: Vec<u8>,
}

/// The applied position of the state machine: the last applied log id
/// and the last applied membership. Mutated only by applying entries in
/// strict index order.
#[derive(Debug)]
pub struct StateMachineData {
    pub last_applied_log_id: Option<LogId>,
    pub last_membership: StoredMembership,
}

/// The state-machine store of one node.
#[derive(Debug)]
pub struct StateMachineStore {
    pub data: StateMachineData,
    /// Sequence number for snapshot identity only; bumped each time a
    /// snapshot builder is handed out.
    pub snapshot_idx: u64,
    /// The single current snapshot, if one was ever built or installed.
    pub current_snapshot: Option<StoredSnapshot>,
}

/// One step of the apply relation: the applied position advances to the
/// entry, and a membership entry replaces the stored membership.
pub open spec fn sm_step(
    last_applied: Option<LogId>,
    membership: StoredMembershipView,
    entry: LogEntry,
) -> (Option<LogId>, StoredMembershipView) {
    (
        Some(entry.log_id),
        match entry.payload {
            EntryPayload::Membership(m) => StoredMembershipView {
                log_id: Some(entry.log_id),
                membership: m@,
            },
            _ => membership,
        },
    )
}

/// Applying a batch of entries, in the order given.
pub open spec fn sm_apply_seq(
    last_applied: Option<LogId>,
    membership: StoredMembershipView,
    entries: Seq<LogEntry>,
) -> (Option<LogId>, StoredMembershipView)
    decreases entries.len(),
{
    if entries.len() == 0 {
        (last_applied, membership)
    } else {
        let s = sm_step(last_applied, membership, entries[0]);
        sm_apply_seq(s.0, s.1, entries.skip(1))
    }
}

impl StateMachineStore {
    /// A freshly bootstrapped state machine: nothing applied yet.
    pub fn new() -> (r: StateMachineStore)
        ensures
            r.data.last_applied_log_id is None,
            r.data.last_membership@.log_id is None,
            r.data.last_membership@.membership.voters.len() == 0,
            r.data.last_membership@.membership.nodes.len() == 0,
            r.snapshot_idx == 0,
            r.current_snapshot is None,
    {
        StateMachineStore {
            data: StateMachineData {
                last_applied_log_id: None,
                last_membership: StoredMembership::initial(),
            },
            snapshot_idx: 0,
            current_snapshot: None,
        }
    }

    /// The current applied position and membership, without side
    /// effects.
    pub fn applied_state(&self) -> (r: (Option<LogId>, &StoredMembership))
        ensures
            r.0 == self.data.last_applied_log_id,
            r.1@ == self.data.last_membership@,
    {
        (self.data.last_applied_log_id, &self.data.last_membership)
    }

    /// Applies one committed entry, the next one in index order. For a
    /// normal entry the caller passes the engine's reply to the entry's
    /// command (an engine error is a valid reply, not a failure), and
    /// gets exactly that reply back; blank and membership entries
    /// produce no reply. The applied position advances to this entry
    /// and is never skipped, so a crash between entries leaves it
    /// consistent with exactly the entries applied so far.
    pub fn apply_entry(&mut self, entry: LogEntry, sql_reply: Option<MessageResponse>) -> (reply:
        Option<MessageResponse>)
        requires
            match old(self).data.last_applied_log_id {
                Some(l) => entry.log_id.index as int == l.index as int + 1,
                None => true,
            },
            entry.payload is Normal <==> sql_reply is Some,
        ensures
            (final(self).data.last_applied_log_id, final(self).data.last_membership@) == sm_step(
                old(self).data.last_applied_log_id,
                old(self).data.last_membership@,
                entry,
            ),
            final(self).data.last_applied_log_id == Some(entry.log_id),
            reply == match entry.payload {
                EntryPayload::Normal(_) => sql_reply,
                _ => None::<MessageResponse>,
            },
            final(self).snapshot_idx == old(self).snapshot_idx,
            final(self).current_snapshot == old(self).current_snapshot,
    {
        self.data.last_applied_log_id = Some(entry.log_id);
        match entry.payload {
            EntryPayload::Blank => None,
            EntryPayload::Normal(_) => sql_reply,
            EntryPayload::Membership(m) => {
                self.data.last_membership = StoredMembership {
                    log_id: Some(entry.log_id),
                    membership: m,
                };
                None
            },
        }
    }

    /// Hands out a snapshot builder: bumps the snapshot sequence number
    /// that keeps snapshot identities unique, and returns the number the
    /// next build will be tagged with.
    pub fn get_snapshot_builder(&mut self) -> (seq: u64)
        requires
            old(self).snapshot_idx < u64::MAX,
        ensures
            final(self).snapshot_idx == old(self).snapshot_idx + 1,
            seq == final(self).snapshot_idx,
            final(self).data.last_applied_log_id == old(self).data.last_applied_log_id,
            final(self).data.last_membership@ == old(self).data.last_membership@,
            final(self).current_snapshot == old(self).current_snapshot,
    {
        self.snapshot_idx = self.snapshot_idx + 1;
        self.snapshot_idx
    }

    /// Finishes building a snapshot from the consistent full-database
    /// capture the unverified edge produced (checkpoint until clean,
    /// close the pool, read the file, reopen). The capture is tagged
    /// with the current applied position and membership and stored as
    /// the new current snapshot, atomically replacing any prior one.
    pub fn build_snapshot(&mut self, db_bytes: Vec<u8>) -> (r: &StoredSnapshot)
        ensures
            r.meta@.last_log_id == old(self).data.last_applied_log_id,
            r.meta@.last_membership == old(self).data.last_membership@,
            r.meta@.snapshot_id == (SnapshotId {
                origin: old(self).data.last_applied_log_id,
                seq: old(self).snapshot_idx,
            }),
            r.data@ == db_bytes@,
            final(self).current_snapshot matches Some(s) && s@ == r@,
            final(self).data.last_applied_log_id == old(self).data.last_applied_log_id,
            final(self).data.last_membership@ == old(self).data.last_membership@,
            final(self).snapshot_idx == old(self).snapshot_idx,
    {
        let meta = SnapshotMeta {
            last_log_id: self.data.last_applied_log_id,
            last_membership: self.data.last_membership.clone(),
            snapshot_id: SnapshotId {
                origin: self.data.last_applied_log_id,
                seq: self.snapshot_idx,
            },
        };
        self.current_snapshot = Some(StoredSnapshot { meta, data: db_bytes });
        match &self.current_snapshot {
            Some(s) => s,
            None => unreached(),
        }
    }

    /// Prepares to receive a snapshot from the wire: an empty buffer
    /// the transport fills.
    pub fn begin_receiving_snapshot(&self) -> (r: Vec<u8>)
        ensures
            r@.len() == 0,
    {
        Vec::new()
    }

    /// Installs a received snapshot: the applied position and membership
    /// are overwritten from the snapshot's metadata, and the snapshot
    /// becomes the current one. The unverified edge writes the returned
    /// current snapshot's bytes verbatim over the local database file;
    /// local state not in the snapshot is lost, which is correct because
    /// the snapshot is at least as advanced as anything this node held.
    pub fn install_snapshot(&mut self, meta: SnapshotMeta, data: Vec<u8>)
        ensures
            final(self).data.last_applied_log_id == meta.last_log_id,
            final(self).data.last_membership@ == meta@.last_membership,
            final(self).current_snapshot matches Some(s) && s.meta@ == meta@ && s.data@ == data@,
            final(self).snapshot_idx == old(self).snapshot_idx,
    {
        self.data.last_applied_log_id = meta.last_log_id;
        self.data.last_membership = meta.last_membership.clone();
        self.current_snapshot = Some(StoredSnapshot { meta, data });
    }

    /// The current snapshot, if any: what snapshot-request RPCs answer
    /// with, and what rehydrates the state machine on restart.
    pub fn get_current_snapshot(&self) -> (r: Option<&StoredSnapshot>)
        ensures
            match r {
                Some(s) => self.current_snapshot matches Some(c) && c@ == s@,
                None => self.current_snapshot is None,
            },
    {
        match &self.current_snapshot {
            Some(s) => Some(s),
            None => None,
        }
    }
}

/// The quiescence rule of the snapshot capture: the write-ahead-log
/// checkpoint loop may stop polling exactly when the engine reports
/// that no checkpoint work was blocked. The unverified edge repeats
/// the checkpoint (with a fixed sleep between polls) until this says
/// so; an incomplete snapshot is never considered complete, so the
/// loop has deliberately no wall-clock bound.
pub fn wal_checkpoint_complete(busy: i64) -> (r: bool)
    ensures
        r == (busy == 0),
{
    busy == 0
}

/// Law: a snapshot round trip is lossless. Installing what
/// `build_snapshot` captured (on any node, in any later state) makes
/// the database bytes equal the captured bytes and the applied state
/// equal the captured metadata. This composes the two contracts above.
pub proof fn lemma_snapshot_roundtrip(
    captured: StoredSnapshotView,
    source_applied: Option<LogId>,
    source_membership: StoredMembershipView,
    db_bytes: Seq<u8>,
    installed_applied: Option<LogId>,
    installed_membership: StoredMembershipView,
    installed_data: Seq<u8>,
)
    requires
        // what build_snapshot ensures of the snapshot it stores
        captured.meta.last_log_id == source_applied,
        captured.meta.last_membership == source_membership,
        captured.data == db_bytes,
        // what install_snapshot ensures when given that snapshot
        installed_applied == captured.meta.last_log_id,
        installed_membership == captured.meta.last_membership,
        installed_data == captured.data,
    ensures
        installed_data == db_bytes,
        installed_applied == source_applied,
        installed_membership == source_membership,
{
}

/// Law: snapshot identities never repeat on one node. Two snapshots
/// built under different sequence numbers have different identities,
/// whatever log positions they capture — so a snapshot can be told from
/// a previous one even when an index is reused after a leadership
/// change.
pub proof fn lemma_snapshot_id_unique(a: SnapshotId, b: SnapshotId)
    requires
        a.seq != b.seq,
    ensures
        a != b,
{
}

/// Law: applying a batch and then another equals applying their
/// concatenation — so a node that crashes after a prefix of a batch and
/// resumes from its recorded applied position reaches exactly the state
/// of a node that applied the whole batch in one piece, with no entry
/// applied twice and none skipped.
pub proof fn lemma_apply_seq_split(
    last_applied: Option<LogId>,
    membership: StoredMembershipView,
    entries: Seq<LogEntry>,
    k: int,
)
    requires
        0 <= k <= entries.len(),
    ensures
        sm_apply_seq(last_applied, membership, entries) == {
            let mid = sm_apply_seq(last_applied, membership, entries.take(k));
            sm_apply_seq(mid.0, mid.1, entries.skip(k))
        },
    decreases k,
{
    if k == 0 {
        assert(entries.take(0) =~= Seq::<LogEntry>::empty());
        assert(entries.skip(0) =~= entries);
    } else {
        let s = sm_step(last_applied, membership, entries[0]);
        lemma_apply_seq_split(s.0, s.1, entries.skip(1), k - 1);
        assert(entries.skip(1).take(k - 1) =~= entries.take(k).skip(1));
        assert(entries.skip(1).skip(k - 1) =~= entries.skip(k));
        assert(entries.take(k)[0] == entries[0]);
        assert(entries.take(k).len() == k);
    }
}

/// Law: the applied position is monotonic and tracks the batch exactly.
/// Applying the first `k` entries of a contiguous batch that starts
/// right after the current applied position leaves `last_applied_log_id`
/// at the `k`-th entry, so along any apply sequence the position's index
/// strictly increases, one entry at a time, and entries at or below it
/// have each been applied exactly once, in index order.
pub proof fn lemma_apply_monotonic(
    last_applied: Option<LogId>,
    membership: StoredMembershipView,
    entries: Seq<LogEntry>,
    k: int,
)
    requires
        1 <= k <= entries.len(),
    ensures
        sm_apply_seq(last_applied, membership, entries.take(k)).0 == Some(entries[k - 1].log_id),
        entries_contiguous(entries) ==> entries[k - 1].log_id.index as int == entries[0].log_id.index
            as int + k - 1,
        match last_applied {
            Some(l) => entries_contiguous(entries) && entries[0].log_id.index as int == l.index
                as int + 1 ==> entries[k - 1].log_id.index > l.index,
            None => true,
        },
    decreases k,
{
    if k == 1 {
        let tail = entries.take(1);
        assert(tail.len() == 1);
        assert(tail[0] == entries[0]);
        let s = sm_step(last_applied, membership, tail[0]);
        assert(sm_apply_seq(last_applied, membership, tail) == sm_apply_seq(s.0, s.1, tail.skip(1)));
        assert(sm_apply_seq(s.0, s.1, tail.skip(1)) == (s.0, s.1)) by {
            assert(tail.skip(1).len() == 0);
        }
    } else {
        lemma_apply_monotonic(last_applied, membership, entries, k - 1);
        lemma_apply_seq_split(last_applied, membership, entries.take(k), k - 1);
        assert(entries.take(k).take(k - 1) =~= entries.take(k - 1));
        let mid = sm_apply_seq(last_applied, membership, entries.take(k - 1));
        let tail = entries.take(k).skip(k - 1);
        assert(tail.len() == 1);
        assert(tail[0] == entries[k - 1]);
        let s = sm_step(mid.0, mid.1, tail[0]);
        assert(sm_apply_seq(mid.0, mid.1, tail) == sm_apply_seq(s.0, s.1, tail.skip(1)));
        assert(sm_apply_seq(s.0, s.1, tail.skip(1)) == (s.0, s.1)) by {
            assert(tail.skip(1).len() == 0);
        }
    }
}

} // verus!
