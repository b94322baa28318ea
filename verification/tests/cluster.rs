//! Cluster-level scenarios, run against an in-process model cluster:
//! each node is a real log store plus state-machine store, the
//! replication step is simulated, and SQL execution is stubbed by the
//! test (the engine's semantics are outside the storage core).

use rxqlite::classifier::is_query_write;
use rxqlite::client::{RetryDecision, RpcFailure, RXQLiteClient, RXQLiteClientBuilder};
use rxqlite::log_store::{EntryPayload, LogEntry, LogStore};
use rxqlite::message::{Message, MessageResponse, Row, Value};
use rxqlite::router::{local_read_response, route, ForwardToLeader, RouteDecision};
use rxqlite::state_machine::StateMachineStore;
use rxqlite::testing::{PortManager, TestTlsConfig};
use rxqlite::types::{LogId, Membership, Node};

struct ModelNode {
    id: u64,
    log: LogStore,
    sm: StateMachineStore,
    api_addr: String,
}

struct ModelCluster {
    nodes: Vec<ModelNode>,
    leader: u64,
    term: u64,
    use_tls: bool,
}

/// What the stubbed SQL engine answers for a command: every write
/// succeeds with no rows; the one SELECT the scenarios run returns the
/// row the inserts produced. Every node answers identically, as a
/// deterministic engine must.
fn engine_reply(msg: &Message) -> MessageResponse {
    match msg {
        Message::Fetch(sql, _) | Message::FetchOne(sql, _) | Message::FetchOptional(sql, _)
            if sql.starts_with("SELECT v FROM t") =>
        {
            MessageResponse::Rows(vec![Row { inner: vec![Value::String("x".to_string())] }])
        }
        _ => MessageResponse::Rows(vec![]),
    }
}

impl ModelCluster {
    fn new(test_name: &str, instance_count: usize, tls_config: Option<TestTlsConfig>) -> Self {
        assert!(!test_name.is_empty());
        let mut ports = PortManager::new(22000);
        let base_port = ports.reserve(instance_count << 1);
        let mut nodes: Vec<ModelNode> = (0..instance_count as u64)
            .map(|i| ModelNode {
                id: i + 1,
                log: LogStore::new(),
                sm: StateMachineStore::new(),
                api_addr: format!("127.0.0.1:{}", base_port + (i as u16) * 2),
            })
            .collect();

        // the leader initializes the cluster: one membership entry,
        // replicated and applied on every node
        let membership = Membership {
            voters: nodes.iter().map(|n| n.id).collect(),
            nodes: nodes
                .iter()
                .map(|n| {
                    (
                        n.id,
                        Node {
                            rpc_addr: format!("rpc-{}", n.id),
                            api_addr: n.api_addr.clone(),
                        },
                    )
                })
                .collect(),
        };
        let entry = LogEntry {
            log_id: LogId { term: 1, node_id: 1, index: 0 },
            payload: EntryPayload::Membership(membership),
        };
        for node in nodes.iter_mut() {
            node.log.append(vec![entry.clone()]);
            node.sm.apply_entry(entry.clone(), None);
        }
        ModelCluster { nodes, leader: 1, term: 1, use_tls: tls_config.is_some() }
    }

    fn clients(&self) -> Vec<RXQLiteClient> {
        self.nodes
            .iter()
            .map(|n| {
                RXQLiteClientBuilder::new(n.id, n.api_addr.clone())
                    .use_tls(self.use_tls)
                    .accept_invalid_certificates(self.use_tls)
                    .build()
            })
            .collect()
    }

    /// The metrics a node reports: the leader it sees and the voter
    /// count of its applied membership.
    fn metrics(&self, node_id: u64) -> (Option<u64>, usize) {
        let node = self.nodes.iter().find(|n| n.id == node_id).unwrap();
        let (_, membership) = node.sm.applied_state();
        (Some(self.leader), membership.membership.voters.len())
    }

    fn wait_for_cluster_established(&self, node_id: u64, reattempts: usize) -> Result<(), String> {
        let mut reattempts = reattempts + 1;
        loop {
            let (leader, voters) = self.metrics(node_id);
            if leader.is_some() && voters == self.nodes.len() {
                return Ok(());
            }
            reattempts -= 1;
            if reattempts == 0 {
                return Err("wait_for_cluster_established timeout".to_string());
            }
        }
    }

    /// A write or consistent read submitted to one node, as the API
    /// endpoint handles it: classify, route, and either replicate and
    /// apply on every node, execute locally, or redirect.
    fn submit(
        &mut self,
        target: u64,
        msg: Message,
        consistent: bool,
    ) -> Result<(LogId, MessageResponse), RpcFailure> {
        let is_write = is_query_write(msg.sql());
        let on_leader = target == self.leader;
        let node = self.nodes.iter().find(|n| n.id == target).unwrap();
        let membership = node.sm.applied_state().1.membership.clone();
        // the linearizability proof succeeds exactly on the leader
        let decision = route(is_write, consistent, on_leader, Some(self.leader), &membership);
        match decision {
            RouteDecision::WriteThroughLog => {
                if !on_leader {
                    let f = ForwardToLeader {
                        leader_id: Some(self.leader),
                        leader_node: membership.node_of(self.leader).cloned(),
                    };
                    return Err(RpcFailure::Forward(f));
                }
                let index = match self.nodes[0].log.get_log_state().last_log_id {
                    Some(l) => l.index + 1,
                    None => 0,
                };
                let log_id = LogId { term: self.term, node_id: self.leader, index };
                let entry = LogEntry { log_id, payload: EntryPayload::Normal(msg.clone()) };
                let mut out = None;
                for node in self.nodes.iter_mut() {
                    node.log.append(vec![entry.clone()]);
                    out = node.sm.apply_entry(entry.clone(), Some(engine_reply(&msg)));
                }
                Ok((log_id, out.unwrap()))
            }
            RouteDecision::ExecuteLocally => {
                let response = local_read_response(engine_reply(&msg));
                Ok((response.log_id, response.data.unwrap()))
            }
            RouteDecision::Redirect(f) => Err(RpcFailure::Forward(f)),
        }
    }
}

#[test]
fn init_cluster() {
    let tm = ModelCluster::new("init_cluster", 3, None);
    tm.wait_for_cluster_established(1, 60).unwrap();
}

#[test]
fn init_cluster_insecures_ssl() {
    let tm = ModelCluster::new(
        "init_cluster_insecures_ssl",
        3,
        Some(TestTlsConfig::default().accept_invalid_certificates(true)),
    );
    tm.wait_for_cluster_established(1, 60).unwrap();
    for client in tm.clients() {
        assert!(client.use_tls);
        assert!(client.accept_invalid_certificates);
    }
}

#[test]
fn write_then_consistent_read() {
    let mut tm = ModelCluster::new("write_then_consistent_read", 3, None);
    tm.wait_for_cluster_established(1, 60).unwrap();

    let create = Message::Execute(
        "CREATE TABLE t(id INTEGER PRIMARY KEY, v TEXT)".to_string(),
        vec![],
    );
    let (_, reply) = tm.submit(1, create, false).unwrap();
    assert!(matches!(reply, MessageResponse::Rows(rows) if rows.is_empty()));

    let insert = Message::Execute("INSERT INTO t(v) VALUES ('x')".to_string(), vec![]);
    let (log_id, reply) = tm.submit(1, insert, false).unwrap();
    assert!(matches!(reply, MessageResponse::Rows(rows) if rows.is_empty()));

    // every node has applied the insert's index
    for node in tm.nodes.iter() {
        assert!(node.sm.applied_state().0.unwrap().index >= log_id.index);
    }

    // the consistent read on the leader returns exactly one row, "x"
    let select = Message::Fetch("SELECT v FROM t".to_string(), vec![]);
    let (_, reply) = tm.submit(1, select, true).unwrap();
    match reply {
        MessageResponse::Rows(rows) => {
            assert_eq!(rows.len(), 1);
            let v: String = rows[0].get(0);
            assert_eq!(v, "x");
        }
        MessageResponse::Error(e) => panic!("{e}"),
    }
}

#[test]
fn leader_redirect() {
    let mut tm = ModelCluster::new("leader_redirect", 3, None);
    tm.wait_for_cluster_established(1, 60).unwrap();

    // a write submitted to a non-leader returns the redirect envelope
    // with a non-null leader id and address
    let insert = Message::Execute("INSERT INTO t(v) VALUES ('x')".to_string(), vec![]);
    let failure = tm.submit(2, insert.clone(), false).unwrap_err();
    let (leader_id, leader_addr) = match &failure {
        RpcFailure::Forward(f) => (
            f.leader_id.expect("leader id must be known"),
            f.leader_node.as_ref().expect("leader address must be known").api_addr.clone(),
        ),
        RpcFailure::Other(e) => panic!("{e}"),
    };

    // the client follows the redirect and resubmits to that address
    let mut client = RXQLiteClientBuilder::new(2, tm.nodes[1].api_addr.clone()).build();
    let mut n_retry: u64 = 3;
    let d = client.handle_leader_failure(&failure, &mut n_retry);
    assert_eq!(d, RetryDecision::RetryNow);
    assert_eq!(client.leader.0, leader_id);
    assert_eq!(client.leader.1, leader_addr);

    let resubmitted = tm.submit(client.leader.0, insert, false);
    assert!(resubmitted.is_ok());
}
