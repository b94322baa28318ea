//! The consistency router: given a statement's write/read
//! classification and the caller-chosen consistency mode, decides
//! whether the statement goes through the replicated log, executes
//! against the local database, or is answered with a leader redirect.

use vstd::prelude::*;

verus! {

use crate::NodeId;
use crate::types::{LogId, Node, Membership};
use crate::message::MessageResponse;

/// The leader-redirect envelope: `leader_id` of `None` means no leader
/// is currently known cluster-wide (the client must back off, not switch
/// targets); a known id comes with the leader's addresses when the
/// membership table has them.
#[derive(Debug)]
pub struct ForwardToLeader {
    pub leader_id: Option<NodeId>,
    pub leader_node: Option<Node>,
}

/// What a write (or routed read) answers with: the log position that
/// produced the reply, the reply itself, and a membership change's
/// resulting configuration if the command was one.
#[derive(Debug)]
pub struct ClientWriteResponse {
    pub log_id: LogId,
    pub data: Option<MessageResponse>,
    pub membership: Option<Membership>,
}

/// Where the router sends a statement.
#[derive(Debug)]
pub enum RouteDecision {
    /// Submit as a normal entry through the consensus write path.
    WriteThroughLog,
    /// Execute immediately against the local state machine's database.
    ExecuteLocally,
    /// Do not execute: answer with the redirect envelope.
    Redirect(ForwardToLeader),
}

/// The first address entry of `nodes` for `id`, if any.
pub open spec fn node_of_spec(nodes: Seq<(NodeId, Node)>, id: NodeId) -> Option<Node>
    decreases nodes.len(),
{
    if nodes.len() == 0 {
        None
    } else if nodes[0].0 == id {
        Some(nodes[0].1)
    } else {
        node_of_spec(nodes.skip(1), id)
    }
}

impl Membership {
    /// Looks up a node's addresses in this configuration.
    pub fn node_of(&self, id: NodeId) -> (r: Option<&Node>)
        ensures
            match r {
                Some(n) => node_of_spec(self.nodes@, id) == Some(*n),
                None => node_of_spec(self.nodes@, id) is None,
            },
    {
        let n = self.nodes.len();
        let mut i: usize = 0;
        proof {
            assert(self.nodes@.skip(0) =~= self.nodes@);
        }
        while i < n
            invariant
                0 <= i <= n,
                n == self.nodes@.len(),
                node_of_spec(self.nodes@, id) == node_of_spec(self.nodes@.skip(i as int), id),
            decreases n - i,
        {
            proof {
                assert(self.nodes@.skip(i as int)[0] == self.nodes@[i as int]);
                assert(self.nodes@.skip(i as int).skip(1) =~= self.nodes@.skip(i + 1 as int));
            }
            if self.nodes[i].0 == id {
                return Some(&self.nodes[i].1);
            }
            i = i + 1;
        }
        proof {
            assert(self.nodes@.skip(n as int).len() == 0);
        }
        None
    }
}

/// What the router decides, as a function of the classification, the
/// mode, the linearizability check and the locally known leader.
///
/// A write always goes through the log, whatever the mode. A fast read
/// executes locally at once and may be stale. A consistent read
/// executes locally only once the linearizability proof succeeded; when
/// it failed (this node is not the leader), the router answers with the
/// redirect envelope — the known leader and its address, or `None` for
/// both when no leader is known — and never silently serves stale data.
pub open spec fn route_spec(
    is_write: bool,
    consistent: bool,
    linearizable: bool,
    current_leader: Option<NodeId>,
    nodes: Seq<(NodeId, Node)>,
) -> RouteDecision {
    if is_write {
        RouteDecision::WriteThroughLog
    } else if !consistent {
        RouteDecision::ExecuteLocally
    } else if linearizable {
        RouteDecision::ExecuteLocally
    } else {
        match current_leader {
            Some(id) => RouteDecision::Redirect(
                ForwardToLeader { leader_id: Some(id), leader_node: node_of_spec(nodes, id) },
            ),
            None => RouteDecision::Redirect(ForwardToLeader { leader_id: None, leader_node: None }),
        }
    }
}

/// Routes one classified statement. `linearizable` reports whether the
/// consensus collaborator granted a linearizability proof (it is only
/// consulted for consistent reads); `current_leader` and `membership`
/// are this node's current view of the cluster, used to fill the
/// redirect envelope.
pub fn route(
    is_write: bool,
    consistent: bool,
    linearizable: bool,
    current_leader: Option<NodeId>,
    membership: &Membership,
) -> (r: RouteDecision)
    ensures
        r == route_spec(is_write, consistent, linearizable, current_leader, membership.nodes@),
{
    if is_write {
        RouteDecision::WriteThroughLog
    } else {
        let do_it_locally = if consistent {
            linearizable
        } else {
            true
        };
        if do_it_locally {
            RouteDecision::ExecuteLocally
        } else {
            match current_leader {
                Some(id) => {
                    let leader_node = match membership.node_of(id) {
                        Some(n) => Some(n.clone()),
                        None => None,
                    };
                    RouteDecision::Redirect(ForwardToLeader { leader_id: Some(id), leader_node })
                },
                None => RouteDecision::Redirect(
                    ForwardToLeader { leader_id: None, leader_node: None },
                ),
            }
        }
    }
}

/// Wraps the reply of a read executed locally in the response envelope.
/// A local read carries no log position; the sentinel id with every
/// field at the maximum marks it as such.
pub fn local_read_response(data: MessageResponse) -> (r: ClientWriteResponse)
    ensures
        r.log_id == (LogId { term: u64::MAX, node_id: u64::MAX, index: u64::MAX }),
        r.data == Some(data),
        r.membership is None,
{
    ClientWriteResponse {
        log_id: LogId { term: u64::MAX, node_id: u64::MAX, index: u64::MAX },
        data: Some(data),
        membership: None,
    }
}

} // verus!
