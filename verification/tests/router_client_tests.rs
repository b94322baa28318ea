//! Tests of the consistency router and the client-side response and
//! retry rules.

use rxqlite::client::{
    execute_response, fetch_one_response, fetch_optional_response, request_url, BackoffDecision,
    ConnectOptions, RSQliteClientTlsConfig, RetryDecision, RpcFailure, RXQLiteClient,
    RXQLiteClientBuilder,
};
use rxqlite::message::{MessageResponse, Row, Value};
use rxqlite::router::{route, ClientWriteResponse, ForwardToLeader, RouteDecision};
use rxqlite::types::{LogId, Membership, Node};

fn three_node_membership() -> Membership {
    Membership {
        voters: vec![1, 2, 3],
        nodes: (1..=3u64)
            .map(|id| {
                (
                    id,
                    Node {
                        rpc_addr: format!("127.0.0.1:2100{id}"),
                        api_addr: format!("127.0.0.1:2200{id}"),
                    },
                )
            })
            .collect(),
    }
}

fn response_with(data: Option<MessageResponse>) -> ClientWriteResponse {
    ClientWriteResponse {
        log_id: LogId { term: 1, node_id: 1, index: 5 },
        data,
        membership: None,
    }
}

#[test]
fn writes_always_go_through_the_log() {
    let m = three_node_membership();
    for consistent in [false, true] {
        for linearizable in [false, true] {
            let d = route(true, consistent, linearizable, Some(1), &m);
            assert!(matches!(d, RouteDecision::WriteThroughLog));
        }
    }
}

#[test]
fn fast_reads_execute_locally() {
    let m = three_node_membership();
    // fast mode never consults the linearizability check
    let d = route(false, false, false, None, &m);
    assert!(matches!(d, RouteDecision::ExecuteLocally));
}

#[test]
fn consistent_reads_need_the_proof() {
    let m = three_node_membership();
    let d = route(false, true, true, Some(1), &m);
    assert!(matches!(d, RouteDecision::ExecuteLocally));
    // without the proof, the router answers with the known leader
    let d = route(false, true, false, Some(2), &m);
    match d {
        RouteDecision::Redirect(f) => {
            assert_eq!(f.leader_id, Some(2));
            assert_eq!(f.leader_node.unwrap().api_addr, "127.0.0.1:22002");
        }
        _ => panic!("expected a redirect"),
    }
    // and with no leader known, with an empty envelope
    let d = route(false, true, false, None, &m);
    match d {
        RouteDecision::Redirect(f) => {
            assert!(f.leader_id.is_none());
            assert!(f.leader_node.is_none());
        }
        _ => panic!("expected a redirect"),
    }
}

#[test]
fn execute_response_rules() {
    let row = Row { inner: vec![Value::Int(1)] };
    let ok = execute_response(response_with(Some(MessageResponse::Rows(vec![row]))));
    assert_eq!(ok.unwrap().len(), 1);
    let err = execute_response(response_with(Some(MessageResponse::Error("boom".into()))));
    assert_eq!(err.unwrap_err(), "boom");
    let empty = execute_response(response_with(None));
    assert!(empty.unwrap().is_empty());
}

#[test]
fn fetch_one_response_rules() {
    let row = Row { inner: vec![Value::Int(7)] };
    let ok = fetch_one_response(response_with(Some(MessageResponse::Rows(vec![row]))));
    assert!(matches!(&ok.unwrap().inner[0], Value::Int(7)));
    let none = fetch_one_response(response_with(Some(MessageResponse::Rows(vec![]))));
    assert_eq!(none.unwrap_err(), "no row matching query");
    let none = fetch_one_response(response_with(None));
    assert_eq!(none.unwrap_err(), "no row matching query");
    let err = fetch_one_response(response_with(Some(MessageResponse::Error("bad".into()))));
    assert_eq!(err.unwrap_err(), "bad");
}

#[test]
fn fetch_optional_response_rules() {
    let row = Row { inner: vec![Value::Int(7)] };
    let one = fetch_optional_response(response_with(Some(MessageResponse::Rows(vec![row]))));
    assert!(one.unwrap().is_some());
    let none = fetch_optional_response(response_with(Some(MessageResponse::Rows(vec![]))));
    assert!(none.unwrap().is_none());
    let none = fetch_optional_response(response_with(None));
    assert!(none.unwrap().is_none());
}

#[test]
fn builder_settings_carry_into_the_client() {
    let client = RXQLiteClientBuilder::new(2, "127.0.0.1:21002".to_string())
        .use_tls(true)
        .accept_invalid_certificates(true)
        .build();
    assert_eq!(client.node, (2, "127.0.0.1:21002".to_string()));
    assert_eq!(client.leader, (2, "127.0.0.1:21002".to_string()));
    assert!(client.use_tls);
    assert!(client.accept_invalid_certificates);

    let client = RXQLiteClientBuilder::new(1, "h:1".to_string())
        .tls_config(Some(RSQliteClientTlsConfig {
            accept_invalid_certificates: true,
            cert_paths: vec![],
        }))
        .build();
    assert!(client.use_tls);
    assert!(client.accept_invalid_certificates);
    let client = RXQLiteClientBuilder::new(1, "h:1".to_string())
        .tls_config(None)
        .build();
    assert!(!client.use_tls);
}

#[test]
fn with_options_formats_the_address() {
    let options = ConnectOptions {
        leader_id: 1,
        leader_host: "127.0.0.1".to_string(),
        leader_port: 21001,
        tls_config: None,
    };
    let client = RXQLiteClient::with_options(&options);
    assert_eq!(client.leader.1, "127.0.0.1:21001");
    assert!(!client.use_tls);
}

#[test]
fn request_urls_follow_the_tls_setting() {
    assert_eq!(request_url(false, "127.0.0.1:21001", "api/sql"), "http://127.0.0.1:21001/api/sql");
    assert_eq!(
        request_url(true, "127.0.0.1:21001", "cluster/metrics"),
        "https://127.0.0.1:21001/cluster/metrics"
    );
}

#[test]
fn node_display() {
    let n = Node { rpc_addr: "r:1".to_string(), api_addr: "a:1".to_string() };
    assert_eq!(n.display_string(), "Node { rpc_addr: r:1, api_addr: a:1 }");
}

#[test]
fn redirects_move_the_leader_pointer() {
    let mut client = RXQLiteClient::new(2, "127.0.0.1:21002".to_string());
    let mut n_retry: u64 = 3;
    let failure = RpcFailure::Forward(ForwardToLeader {
        leader_id: Some(1),
        leader_node: Some(Node {
            rpc_addr: "127.0.0.1:21101".to_string(),
            api_addr: "127.0.0.1:21001".to_string(),
        }),
    });
    let d = client.handle_leader_failure(&failure, &mut n_retry);
    assert_eq!(d, RetryDecision::RetryNow);
    assert_eq!(client.leader, (1, "127.0.0.1:21001".to_string()));
    assert_eq!(n_retry, 2);

    // an incomplete redirect is surfaced without moving the pointer
    let failure = RpcFailure::Forward(ForwardToLeader { leader_id: None, leader_node: None });
    let d = client.handle_leader_failure(&failure, &mut n_retry);
    assert_eq!(d, RetryDecision::GiveUp);
    assert_eq!(client.leader.0, 1);
    assert_eq!(n_retry, 2);

    // any other error is surfaced too
    let failure = RpcFailure::Other("connection refused".to_string());
    let d = client.handle_leader_failure(&failure, &mut n_retry);
    assert_eq!(d, RetryDecision::GiveUp);
}

#[test]
fn retry_budget_is_bounded() {
    let mut client = RXQLiteClient::new(2, "a:1".to_string());
    let forward = || {
        RpcFailure::Forward(ForwardToLeader {
            leader_id: Some(1),
            leader_node: Some(Node {
                rpc_addr: "r:1".to_string(),
                api_addr: "a:1".to_string(),
            }),
        })
    };
    let mut n_retry: u64 = 3;
    assert_eq!(client.handle_leader_failure(&forward(), &mut n_retry), RetryDecision::RetryNow);
    assert_eq!(client.handle_leader_failure(&forward(), &mut n_retry), RetryDecision::RetryNow);
    // the third redirect exhausts the budget
    assert_eq!(client.handle_leader_failure(&forward(), &mut n_retry), RetryDecision::GiveUp);
    assert_eq!(n_retry, 0);
}

#[test]
fn leaderless_windows_back_off() {
    let client = RXQLiteClient::new(1, "a:1".to_string());
    let leaderless = || RpcFailure::Forward(ForwardToLeader { leader_id: None, leader_node: None });
    let mut retries: u64 = 2;
    // no leader known: wait, then try again
    assert_eq!(
        client.handle_leaderless_failure(&leaderless(), &mut retries),
        BackoffDecision::RetryAfterDelay
    );
    assert_eq!(
        client.handle_leaderless_failure(&leaderless(), &mut retries),
        BackoffDecision::GiveUp
    );
    // a redirect naming a leader is not a leaderless window
    let mut retries: u64 = 5;
    let named = RpcFailure::Forward(ForwardToLeader {
        leader_id: Some(3),
        leader_node: None,
    });
    assert_eq!(
        client.handle_leaderless_failure(&named, &mut retries),
        BackoffDecision::GiveUp
    );
    assert_eq!(retries, 5);
}
