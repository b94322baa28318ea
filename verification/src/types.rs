//! Core data model shared by the log store and the state machine:
//! log positions, votes, cluster nodes and membership configurations.

use vstd::prelude::*;

verus! {

use vstd::string::StringExecFns;
use crate::NodeId;

/// Position of one entry in the replicated log: the leader that proposed
/// it and the entry's index. Index values are the sole ordering key of
/// the retained log.
#[derive(Debug, Clone, Copy, PartialEq, Eq, Structural)]
pub struct LogId {
    pub term: u64,
    pub node_id: NodeId,
    pub index: u64,
}

/// The most recent durable vote cast by this node. It is owned and
/// interpreted by the consensus collaborator; this layer only persists
/// it losslessly.
#[derive(Debug, Clone, Copy, PartialEq, Eq, Structural)]
pub struct Vote {
    pub term: u64,
    pub node_id: NodeId,
    pub committed: bool,
}

/// Network addresses of one node of the cluster.
#[derive(Debug, Default)]
pub struct Node {
    pub rpc_addr: String,
    pub api_addr: String,
}

impl Clone for Node {
    fn clone(&self) -> (r: Node)
        ensures
            r == *self,
    {
        Node { rpc_addr: self.rpc_addr.clone(), api_addr: self.api_addr.clone() }
    }
}

impl PartialEq for Node {
    fn eq(&self, other: &Node) -> (r: bool) {
        self.rpc_addr == other.rpc_addr && self.api_addr == other.api_addr
    }
}

impl vstd::std_specs::cmp::PartialEqSpecImpl for Node {
    open spec fn obeys_eq_spec() -> bool {
        true
    }

    open spec fn eq_spec(&self, other: &Node) -> bool {
        self.rpc_addr@ == other.rpc_addr@ && self.api_addr@ == other.api_addr@
    }
}

impl Node {
    /// The rendering of this node for logs and error messages.
    pub open spec fn display_spec(self) -> Seq<char> {
        "Node { rpc_addr: "@ + self.rpc_addr@ + ", api_addr: "@ + self.api_addr@ + " }"@
    }

    /// Renders the node's addresses.
    pub fn display_string(&self) -> (r: String)
        ensures
            r@ == self.display_spec(),
    {
        let mut out = String::from_str("Node { rpc_addr: ");
        out.append(self.rpc_addr.as_str());
        out.append(", api_addr: ");
        out.append(self.api_addr.as_str());
        out.append(" }");
        proof {
            assert(out@ =~= self.display_spec());
        }
        out
    }
}

/// A cluster configuration: the voting members and the addresses of all
/// known nodes.
#[derive(Debug)]
pub struct Membership {
    pub voters: Vec<NodeId>,
    pub nodes: Vec<(NodeId, Node)>,
}

/// The mathematical value of a `Membership`: the voter list and the
/// node table, order kept.
pub struct MembershipView {
    pub voters: Seq<NodeId>,
    pub nodes: Seq<(NodeId, Node)>,
}

impl View for Membership {
    type V = MembershipView;

    open spec fn view(&self) -> MembershipView {
        MembershipView { voters: self.voters@, nodes: self.nodes@ }
    }
}

impl Clone for Membership {
    fn clone(&self) -> (r: Membership)
        ensures
            r@ == self@,
    {
        let mut voters: Vec<NodeId> = Vec::new();
        let mut i: usize = 0;
        while i < self.voters.len()
            invariant
                0 <= i <= self.voters@.len(),
                voters@ == self.voters@.take(i as int),
            decreases self.voters@.len() - i,
        {
            voters.push(self.voters[i]);
            proof {
                assert(voters@ =~= self.voters@.take(i + 1 as int));
            }
            i = i + 1;
        }
        let mut nodes: Vec<(NodeId, Node)> = Vec::new();
        let mut j: usize = 0;
        while j < self.nodes.len()
            invariant
                0 <= j <= self.nodes@.len(),
                nodes@ == self.nodes@.take(j as int),
            decreases self.nodes@.len() - j,
        {
            let id = self.nodes[j].0;
            let node = self.nodes[j].1.clone();
            nodes.push((id, node));
            proof {
                assert(nodes@ =~= self.nodes@.take(j + 1 as int));
            }
            j = j + 1;
        }
        proof {
            assert(voters@ =~= self.voters@);
            assert(nodes@ =~= self.nodes@);
        }
        let r = Membership { voters, nodes };
        proof {
            assert(r@ =~= self@) by {
                assert(r@.voters == self@.voters && r@.nodes == self@.nodes);
            }
        }
        r
    }
}

impl Membership {
    /// The empty configuration a node starts from before any membership
    /// entry has been applied.
    pub fn empty() -> (r: Membership)
        ensures
            r.voters@.len() == 0,
            r.nodes@.len() == 0,
    {
        Membership { voters: Vec::new(), nodes: Vec::new() }
    }
}

/// The last membership configuration applied by the state machine,
/// together with the log position it was applied at.
#[derive(Debug)]
pub struct StoredMembership {
    pub log_id: Option<LogId>,
    pub membership: Membership,
}

/// The mathematical value of a `StoredMembership`.
pub struct StoredMembershipView {
    pub log_id: Option<LogId>,
    pub membership: MembershipView,
}

impl View for StoredMembership {
    type V = StoredMembershipView;

    open spec fn view(&self) -> StoredMembershipView {
        StoredMembershipView { log_id: self.log_id, membership: self.membership@ }
    }
}

impl Clone for StoredMembership {
    fn clone(&self) -> (r: StoredMembership)
        ensures
            r@ == self@,
    {
        StoredMembership { log_id: self.log_id, membership: self.membership.clone() }
    }
}

impl StoredMembership {
    /// The configuration of a freshly bootstrapped node.
    pub fn initial() -> (r: StoredMembership)
        ensures
            r.log_id is None,
            r.membership.voters@.len() == 0,
            r.membership.nodes@.len() == 0,
    {
        StoredMembership { log_id: None, membership: Membership::empty() }
    }
}

/// What the log store answers to a log-state query: the purge watermark
/// and the position of the tail of the stored entries (or the watermark
/// itself once nothing is retained).
#[derive(Debug, Clone, Copy, PartialEq, Eq, Structural)]
pub struct LogState {
    pub last_purged_log_id: Option<LogId>,
    pub last_log_id: Option<LogId>,
}

} // verus!
