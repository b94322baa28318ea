//! The ordered log store: a durable, append-only log of commands keyed
//! by index, plus the vote, committed-index and purge-watermark records.
//!
//! The store models the per-node key-value namespace: the unverified
//! edge persists exactly what these operations compute, entry by entry,
//! under big-endian index keys (see `codec`).

use vstd::prelude::*;

verus! {

use crate::types::{LogId, Vote, Membership, LogState};
use crate::message::Message;

/// What one log entry carries: nothing (a leader no-op), one SQL
/// command, or a membership change.
#[derive(Debug, Clone)]
pub enum EntryPayload {
    Blank,
    Normal(Message),
    Membership(Membership),
}

/// One entry of the replicated log.
#[derive(Debug, Clone)]
pub struct LogEntry {
    pub log_id: LogId,
    pub payload: EntryPayload,
}

/// Retained entries have strictly increasing, gap-free indices.
pub open spec fn entries_contiguous(s: Seq<LogEntry>) -> bool {
    forall|i: int|
        0 <= i < s.len() ==> (#[trigger] s[i]).log_id.index as int == s[0].log_id.index as int + i
}

/// The log store of one node.
#[derive(Debug, Clone)]
pub struct LogStore {
    /// Retained log entries, in index order.
    pub entries: Vec<LogEntry>,
    /// The purge watermark: everything at or below it has been deleted
    /// after a snapshot made it redundant. Exposed even when no entries
    /// remain.
    pub last_purged: Option<LogId>,
    /// The highest index known committed; persisted so a restart never
    /// regresses the exposed commit point.
    pub committed: Option<LogId>,
    /// The current vote, persisted losslessly for the consensus
    /// collaborator.
    pub vote: Option<Vote>,
}

impl LogStore {
    /// The store's invariant: the retained range is contiguous and sits
    /// entirely above the purge watermark.
    pub open spec fn wf(self) -> bool {
        &&& entries_contiguous(self.entries@)
        &&& match self.last_purged {
            Some(p) => self.entries@.len() > 0 ==> self.entries@[0].log_id.index as int
                > p.index as int,
            None => true,
        }
    }

    /// The tail of the stored entries, or the purge watermark once
    /// nothing is retained: never `None` after anything was ever
    /// appended or purged.
    pub open spec fn spec_last_log_id(self) -> Option<LogId> {
        if self.entries@.len() > 0 {
            Some(self.entries@.last().log_id)
        } else {
            self.last_purged
        }
    }

    /// An empty store, as on first boot.
    pub fn new() -> (r: LogStore)
        ensures
            r.wf(),
            r.entries@.len() == 0,
            r.last_purged is None,
            r.committed is None,
            r.vote is None,
    {
        LogStore { entries: Vec::new(), last_purged: None, committed: None, vote: None }
    }

    /// Durably persists a batch of entries at the tail of the log. The
    /// batch itself must be contiguous and continue the stored range;
    /// the caller reports completion to the consensus collaborator once
    /// the unverified edge has flushed what was appended.
    pub fn append(&mut self, entries: Vec<LogEntry>)
        requires
            old(self).wf(),
            entries_contiguous(entries@),
            entries@.len() > 0 ==> match old(self).spec_last_log_id() {
                Some(l) => entries@[0].log_id.index as int == l.index as int + 1,
                None => true,
            },
        ensures
            final(self).wf(),
            final(self).entries@ == old(self).entries@ + entries@,
            final(self).last_purged == old(self).last_purged,
            final(self).committed == old(self).committed,
            final(self).vote == old(self).vote,
    {
        let ghost prev = self.entries@;
        let ghost batch = entries@;
        let mut entries = entries;
        self.entries.append(&mut entries);
        proof {
            assert(self.entries@ =~= prev + batch);
            assert forall|i: int| 0 <= i < self.entries@.len() implies (
            #[trigger] self.entries@[i]).log_id.index as int == self.entries@[0].log_id.index as int
                + i by {
                if prev.len() > 0 {
                    assert(self.entries@[0] == prev[0]);
                    if i >= prev.len() {
                        assert(batch[i - prev.len()].log_id.index as int
                            == batch[0].log_id.index as int + (i - prev.len()));
                        assert(prev.last() == prev[prev.len() - 1]);
                    }
                } else {
                    assert(self.entries@ =~= batch);
                }
            }
        }
    }

    /// Durably deletes every entry with index at or above
    /// `log_id.index`, keeping the prefix below it. Used when a new
    /// leader overwrites a divergent uncommitted suffix.
    pub fn truncate(&mut self, log_id: LogId)
        requires
            old(self).wf(),
        ensures
            final(self).wf(),
            final(self).entries@.len() <= old(self).entries@.len(),
            forall|i: int|
                0 <= i < final(self).entries@.len() ==> final(self).entries@[i] == old(self).entries@[i],
            forall|i: int|
                0 <= i < final(self).entries@.len() ==> (#[trigger] final(self).entries@[i]).log_id.index < log_id.index,
            forall|i: int|
                0 <= i < old(self).entries@.len() && (#[trigger] old(self).entries@[i]).log_id.index < log_id.index ==> i < final(self).entries@.len(),
            final(self).last_purged == old(self).last_purged,
            final(self).committed == old(self).committed,
            final(self).vote == old(self).vote,
    {
        let n = self.entries.len();
        if n == 0 {
            return ;
        }
        let first = self.entries[0].log_id.index;
        let last = self.entries[n - 1].log_id.index;
        let keep: usize = if log_id.index <= first {
            0
        } else if log_id.index > last {
            n
        } else {
            (log_id.index - first) as usize
        };
        self.entries.truncate(keep);
        proof {
            assert(self.entries@ =~= old(self).entries@.take(keep as int));
        }
    }

    /// Durably deletes every entry with index at or below
    /// `log_id.index` and persists `log_id` as the new purge watermark,
    /// which never moves backwards.
    pub fn purge(&mut self, log_id: LogId)
        requires
            old(self).wf(),
            match old(self).last_purged {
                Some(p) => log_id.index >= p.index,
                None => true,
            },
        ensures
            final(self).wf(),
            final(self).last_purged == Some(log_id),
            final(self).entries@.len() <= old(self).entries@.len(),
            forall|i: int|
                0 <= i < final(self).entries@.len() ==> final(self).entries@[i] == old(self).entries@[i + (old(self).entries@.len() - final(self).entries@.len())],
            forall|i: int|
                0 <= i < final(self).entries@.len() ==> (#[trigger] final(self).entries@[i]).log_id.index > log_id.index,
            forall|i: int|
                0 <= i < old(self).entries@.len() && (#[trigger] old(self).entries@[i]).log_id.index > log_id.index ==> i >= old(self).entries@.len()
                    - final(self).entries@.len(),
            final(self).committed == old(self).committed,
            final(self).vote == old(self).vote,
    {
        let n = self.entries.len();
        let drop: usize = if n == 0 {
            0
        } else {
            let first = self.entries[0].log_id.index;
            let last = self.entries[n - 1].log_id.index;
            if log_id.index < first {
                0
            } else if log_id.index >= last {
                n
            } else {
                (log_id.index - first + 1) as usize
            }
        };
        let tail = self.entries.split_off(drop);
        self.entries = tail;
        self.last_purged = Some(log_id);
        proof {
            assert(self.entries@ =~= old(self).entries@.skip(drop as int));
        }
    }

    /// Entries with `start <= index < end`, in index order. The stored
    /// range is contiguous, so the answer is one slice of it.
    pub fn try_get_log_entries(&self, start: u64, end: u64) -> (r: &[LogEntry])
        requires
            self.wf(),
        ensures
            forall|i: int|
                0 <= i < r@.len() ==> start <= (#[trigger] r@[i]).log_id.index < end,
            forall|i: int|
                0 <= i < r@.len() ==> exists|j: int|
                    0 <= j < self.entries@.len() && #[trigger] r@[i] == #[trigger] self.entries@[j],
            forall|j: int|
                0 <= j < self.entries@.len() && start <= (#[trigger] self.entries@[j]).log_id.index
                    < end ==> exists|i: int| 0 <= i < r@.len() && #[trigger] r@[i]
                    == self.entries@[j],
            entries_contiguous(r@),
    {
        let n = self.entries.len();
        if n == 0 || end <= start {
            let r = vstd::slice::slice_subrange(self.entries.as_slice(), 0, 0);
            return r;
        }
        let first = self.entries[0].log_id.index;
        let last = self.entries[n - 1].log_id.index;
        let lo: usize = if start <= first {
            0
        } else if start > last {
            n
        } else {
            (start - first) as usize
        };
        let hi: usize = if end <= first {
            0
        } else if end > last {
            n
        } else {
            (end - first) as usize
        };
        let hi = if hi < lo {
            lo
        } else {
            hi
        };
        let r = vstd::slice::slice_subrange(self.entries.as_slice(), lo, hi);
        proof {
            assert forall|j: int|
                0 <= j < self.entries@.len() && start <= (#[trigger] self.entries@[j]).log_id.index
                    < end implies exists|i: int| 0 <= i < r@.len() && #[trigger] r@[i]
                == self.entries@[j] by {
                assert(lo <= j < hi);
                assert(r@[j - lo] == self.entries@[j]);
            }
        }
        r
    }

    /// Answers a log-state query: the purge watermark, and the tail of
    /// the stored entries or the watermark itself if nothing remains.
    pub fn get_log_state(&self) -> (r: LogState)
        requires
            self.wf(),
        ensures
            r.last_purged_log_id == self.last_purged,
            r.last_log_id == self.spec_last_log_id(),
    {
        let n = self.entries.len();
        let last_log_id = if n == 0 {
            self.last_purged
        } else {
            Some(self.entries[n - 1].log_id)
        };
        LogState { last_purged_log_id: self.last_purged, last_log_id }
    }

    /// Durably records the highest committed index seen.
    pub fn save_committed(&mut self, committed: Option<LogId>)
        requires
            old(self).wf(),
        ensures
            final(self).wf(),
            final(self).committed == committed,
            final(self).entries@ == old(self).entries@,
            final(self).last_purged == old(self).last_purged,
            final(self).vote == old(self).vote,
    {
        self.committed = committed;
    }

    /// Reads back the recorded committed index.
    pub fn read_committed(&self) -> (r: Option<LogId>)
        ensures
            r == self.committed,
    {
        self.committed
    }

    /// Durably records the node's current vote, last-write-wins.
    pub fn save_vote(&mut self, vote: Vote)
        requires
            old(self).wf(),
        ensures
            final(self).wf(),
            final(self).vote == Some(vote),
            final(self).entries@ == old(self).entries@,
            final(self).last_purged == old(self).last_purged,
            final(self).committed == old(self).committed,
    {
        self.vote = Some(vote);
    }

    /// Reads back the recorded vote.
    pub fn read_vote(&self) -> (r: Option<Vote>)
        ensures
            r == self.vote,
    {
        self.vote
    }
}

/// Law: once a snapshot has made a prefix redundant and the log has
/// been purged through its last index, reading any range lying at or
/// below that index returns nothing — while the log state still reports
/// the purge watermark (by `get_log_state`'s contract). The `r`
/// parameter is any result `try_get_log_entries` may return for such a
/// range, characterized by that function's contract.
pub proof fn lemma_purged_range_empty(
    s: LogStore,
    p: LogId,
    start: u64,
    end: u64,
    r: Seq<LogEntry>,
)
    requires
        s.wf(),
        s.last_purged == Some(p),
        end as int <= p.index as int + 1,
        forall|i: int| 0 <= i < r.len() ==> start <= (#[trigger] r[i]).log_id.index < end,
        forall|i: int|
            0 <= i < r.len() ==> exists|j: int|
                0 <= j < s.entries@.len() && #[trigger] r[i] == #[trigger] s.entries@[j],
    ensures
        r.len() == 0,
{
    if r.len() > 0 {
        assert(start <= r[0].log_id.index < end);
        let j = choose|j: int| 0 <= j < s.entries@.len() && r[0] == s.entries@[j];
        assert(s.entries@[j].log_id.index as int == s.entries@[0].log_id.index as int + j);
        assert(s.entries@[0].log_id.index as int > p.index as int);
    }
}

/// Law: however the log got into its current well-formed state (any
/// sequence of append, truncate and purge preserves `wf`, by their
/// contracts), the retained indices form one gap-free range, and the
/// reported tail never lies below the purge watermark.
pub proof fn lemma_log_contiguity(s: LogStore)
    requires
        s.wf(),
    ensures
        forall|i: int, j: int|
            0 <= i <= j < s.entries@.len() ==> (#[trigger] s.entries@[j]).log_id.index as int - (
            #[trigger] s.entries@[i]).log_id.index as int == j - i,
        s.last_purged matches Some(p) ==> s.spec_last_log_id() matches Some(l) && l.index
            >= p.index,
{
    if s.entries@.len() > 0 {
        assert(s.spec_last_log_id() == Some(s.entries@.last().log_id));
        assert(s.entries@.last() == s.entries@[s.entries@.len() - 1]);
    }
}

} // verus!
