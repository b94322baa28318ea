//! The client protocol: a leader-tracking handle that submits commands
//! to the current believed leader, follows "forward to leader"
//! redirects, and retries during leaderless windows.
//!
//! Sending an RPC and sleeping between attempts are the unverified
//! edge's work; the decisions — where to send, when to switch targets,
//! when to retry and when to give up — are verified here, as are the
//! rules that turn a response envelope into each call's result.

use vstd::prelude::*;

verus! {

use vstd::string::StringExecFns;
use crate::NodeId;
use crate::text::u64_dec_chars;
use crate::text::u64_to_dec_string;
use crate::message::{MessageResponse, Row, Rows};
use crate::router::{ForwardToLeader, ClientWriteResponse};

/// Client-side TLS settings.
#[derive(Debug)]
pub struct RSQliteClientTlsConfig {
    pub accept_invalid_certificates: bool,
    pub cert_paths: Vec<String>,
}

impl Clone for RSQliteClientTlsConfig {
    fn clone(&self) -> (r: RSQliteClientTlsConfig)
        ensures
            r.accept_invalid_certificates == self.accept_invalid_certificates,
            r.cert_paths@.len() == self.cert_paths@.len(),
            forall|i: int|
                0 <= i < self.cert_paths@.len() ==> r.cert_paths@[i]@ == self.cert_paths@[i]@,
    {
        let mut cert_paths: Vec<String> = Vec::new();
        let mut i: usize = 0;
        while i < self.cert_paths.len()
            invariant
                0 <= i <= self.cert_paths@.len(),
                cert_paths@.len() == i,
                forall|j: int| 0 <= j < i ==> cert_paths@[j]@ == self.cert_paths@[j]@,
            decreases self.cert_paths@.len() - i,
        {
            cert_paths.push(self.cert_paths[i].clone());
            i = i + 1;
        }
        RSQliteClientTlsConfig {
            accept_invalid_certificates: self.accept_invalid_certificates,
            cert_paths,
        }
    }
}

impl Default for RSQliteClientTlsConfig {
    fn default() -> (r: RSQliteClientTlsConfig)
        ensures
            !r.accept_invalid_certificates,
            r.cert_paths@.len() == 0,
    {
        RSQliteClientTlsConfig { accept_invalid_certificates: false, cert_paths: Vec::new() }
    }
}

/// How a client finds its first target: the believed leader's id and
/// address, and the TLS settings to reach it with.
#[derive(Debug, Default)]
pub struct ConnectOptions {
    pub leader_id: NodeId,
    pub leader_host: String,
    pub leader_port: u16,
    pub tls_config: Option<RSQliteClientTlsConfig>,
}

/// Builds a client handle from a node id and address.
pub struct RXQLiteClientBuilder {
    pub node_id: NodeId,
    pub node_addr: String,
    pub use_tls: bool,
    pub accept_invalid_certificates: bool,
}

impl RXQLiteClientBuilder {
    pub fn new(node_id: NodeId, node_addr: String) -> (r: RXQLiteClientBuilder)
        ensures
            r.node_id == node_id,
            r.node_addr@ == node_addr@,
            !r.use_tls,
            !r.accept_invalid_certificates,
    {
        RXQLiteClientBuilder {
            node_id,
            node_addr,
            use_tls: false,
            accept_invalid_certificates: false,
        }
    }

    /// Adopts a TLS configuration: `Some` switches TLS on and takes the
    /// certificate policy from it, `None` switches both off.
    pub fn tls_config(self, tls_config: Option<RSQliteClientTlsConfig>) -> (r: RXQLiteClientBuilder)
        ensures
            r.node_id == self.node_id,
            r.node_addr@ == self.node_addr@,
            match tls_config {
                Some(cfg) => r.use_tls && r.accept_invalid_certificates
                    == cfg.accept_invalid_certificates,
                None => !r.use_tls && !r.accept_invalid_certificates,
            },
    {
        let mut s = self;
        match tls_config {
            Some(cfg) => {
                s.use_tls = true;
                s.accept_invalid_certificates = cfg.accept_invalid_certificates;
            },
            None => {
                s.use_tls = false;
                s.accept_invalid_certificates = false;
            },
        }
        s
    }

    pub fn use_tls(self, use_tls: bool) -> (r: RXQLiteClientBuilder)
        ensures
            r.node_id == self.node_id,
            r.node_addr@ == self.node_addr@,
            r.use_tls == use_tls,
            r.accept_invalid_certificates == self.accept_invalid_certificates,
    {
        let mut s = self;
        s.use_tls = use_tls;
        s
    }

    pub fn accept_invalid_certificates(self, accept_invalid_certificates: bool) -> (r:
        RXQLiteClientBuilder)
        ensures
            r.node_id == self.node_id,
            r.node_addr@ == self.node_addr@,
            r.use_tls == self.use_tls,
            r.accept_invalid_certificates == accept_invalid_certificates,
    {
        let mut s = self;
        s.accept_invalid_certificates = accept_invalid_certificates;
        s
    }

    /// Builds the handle: both the fixed home node and the mutable
    /// leader pointer start at the builder's node.
    pub fn build(self) -> (r: RXQLiteClient)
        ensures
            r.node.0 == self.node_id && r.node.1@ == self.node_addr@,
            r.leader.0 == self.node_id && r.leader.1@ == self.node_addr@,
            r.use_tls == self.use_tls,
            r.accept_invalid_certificates == self.accept_invalid_certificates,
    {
        let addr_copy = self.node_addr.clone();
        RXQLiteClient {
            node: (self.node_id, addr_copy),
            leader: (self.node_id, self.node_addr),
            use_tls: self.use_tls,
            accept_invalid_certificates: self.accept_invalid_certificates,
        }
    }
}

/// A client handle. `leader` is the current best guess of the leader,
/// updated on every redirect and never persisted; `node` is the original
/// target, kept for node-local queries such as metrics.
pub struct RXQLiteClient {
    pub leader: (NodeId, String),
    pub node: (NodeId, String),
    pub use_tls: bool,
    pub accept_invalid_certificates: bool,
}

/// How one RPC attempt failed: with the redirect envelope, or with any
/// other error (network, consensus, remote), carried as text here.
#[derive(Debug)]
pub enum RpcFailure {
    Forward(ForwardToLeader),
    Other(String),
}

/// What the leader-following loop does after a failed attempt.
#[derive(Debug, Clone, Copy, PartialEq, Eq, Structural)]
pub enum RetryDecision {
    /// Switch to the redirect's leader and resend at once.
    RetryNow,
    /// Surface the failure to the caller.
    GiveUp,
}

/// What the leaderless-window loop does after the inner loop gave up.
#[derive(Debug, Clone, Copy, PartialEq, Eq, Structural)]
pub enum BackoffDecision {
    /// Sleep for the configured delay, then resend.
    RetryAfterDelay,
    /// Surface the failure to the caller.
    GiveUp,
}

impl RXQLiteClient {
    pub fn new(node_id: NodeId, node_addr: String) -> (r: RXQLiteClient)
        ensures
            r.node.0 == node_id && r.node.1@ == node_addr@,
            r.leader.0 == node_id && r.leader.1@ == node_addr@,
            !r.use_tls,
            !r.accept_invalid_certificates,
    {
        let addr_copy = node_addr.clone();
        RXQLiteClient {
            node: (node_id, addr_copy),
            leader: (node_id, node_addr),
            use_tls: false,
            accept_invalid_certificates: false,
        }
    }

    /// A handle from connect options: the target address is
    /// `host:port`.
    pub fn with_options(options: &ConnectOptions) -> (r: RXQLiteClient)
        ensures
            r.node.0 == options.leader_id,
            r.node.1@ == options.leader_host@ + seq![':'] + u64_dec_chars(
                options.leader_port as nat,
            ),
            r.leader.0 == options.leader_id,
            r.leader.1@ == r.node.1@,
            r.use_tls == options.tls_config is Some,
            r.accept_invalid_certificates == match options.tls_config {
                Some(cfg) => cfg.accept_invalid_certificates,
                None => false,
            },
    {
        let mut addr = options.leader_host.clone();
        addr.append(":");
        let port = u64_to_dec_string(options.leader_port as u64);
        addr.append(port.as_str());
        proof {
            reveal_strlit(":");
            assert(addr@ =~= options.leader_host@ + seq![':'] + u64_dec_chars(
                options.leader_port as nat,
            ));
        }
        let accept_invalid_certificates = match &options.tls_config {
            Some(cfg) => cfg.accept_invalid_certificates,
            None => false,
        };
        let addr_copy = addr.clone();
        RXQLiteClient {
            node: (options.leader_id, addr_copy),
            leader: (options.leader_id, addr),
            use_tls: match &options.tls_config {
                Some(_) => true,
                None => false,
            },
            accept_invalid_certificates,
        }
    }

    /// One decision of the leader-following loop, after an attempt
    /// against the believed leader failed. Only a redirect that names a
    /// leader and its address moves the leader pointer and spends one
    /// retry; the loop resends while retries remain. A redirect without
    /// a complete leader, and every other failure, is surfaced at once.
    pub fn handle_leader_failure(&mut self, failure: &RpcFailure, n_retry: &mut u64) -> (d:
        RetryDecision)
        ensures
            match failure {
                RpcFailure::Forward(f) => match (f.leader_id, &f.leader_node) {
                    (Some(id), Some(node)) => {
                        &&& final(self).leader.0 == id
                        &&& final(self).leader.1@ == node.api_addr@
                        &&& *final(n_retry) == if *old(n_retry) > 0 {
                            (*old(n_retry) - 1) as u64
                        } else {
                            0u64
                        }
                        &&& (d == RetryDecision::RetryNow <==> *final(n_retry) > 0)
                    },
                    _ => {
                        &&& final(self).leader == old(self).leader
                        &&& *final(n_retry) == *old(n_retry)
                        &&& d == RetryDecision::GiveUp
                    },
                },
                RpcFailure::Other(_) => {
                    &&& final(self).leader == old(self).leader
                    &&& *final(n_retry) == *old(n_retry)
                    &&& d == RetryDecision::GiveUp
                },
            },
            final(self).node == old(self).node,
            final(self).use_tls == old(self).use_tls,
            final(self).accept_invalid_certificates == old(self).accept_invalid_certificates,
    {
        match failure {
            RpcFailure::Forward(f) => {
                match (&f.leader_id, &f.leader_node) {
                    (Some(id), Some(node)) => {
                        self.leader = (*id, node.api_addr.clone());
                        if *n_retry > 0 {
                            *n_retry = *n_retry - 1;
                        }
                        if *n_retry > 0 {
                            RetryDecision::RetryNow
                        } else {
                            RetryDecision::GiveUp
                        }
                    },
                    _ => RetryDecision::GiveUp,
                }
            },
            RpcFailure::Other(_) => RetryDecision::GiveUp,
        }
    }

    /// One decision of the outer, leaderless-window loop. A redirect
    /// that names no leader means the cluster has none right now: spend
    /// one retry and resend after the delay. A redirect naming a leader
    /// was already followed by the inner loop, so it — like every other
    /// failure — is surfaced.
    pub fn handle_leaderless_failure(&self, failure: &RpcFailure, retries: &mut u64) -> (d:
        BackoffDecision)
        ensures
            match failure {
                RpcFailure::Forward(f) => match f.leader_id {
                    Some(_) => *final(retries) == *old(retries) && d == BackoffDecision::GiveUp,
                    None => {
                        &&& *final(retries) == if *old(retries) > 0 {
                            (*old(retries) - 1) as u64
                        } else {
                            0u64
                        }
                        &&& (d == BackoffDecision::RetryAfterDelay <==> *final(retries) > 0)
                    },
                },
                RpcFailure::Other(_) => *final(retries) == *old(retries) && d
                    == BackoffDecision::GiveUp,
            },
    {
        match failure {
            RpcFailure::Forward(f) => {
                match &f.leader_id {
                    Some(_) => BackoffDecision::GiveUp,
                    None => {
                        if *retries > 0 {
                            *retries = *retries - 1;
                        }
                        if *retries > 0 {
                            BackoffDecision::RetryAfterDelay
                        } else {
                            BackoffDecision::GiveUp
                        }
                    },
                }
            },
            RpcFailure::Other(_) => BackoffDecision::GiveUp,
        }
    }
}

/// The address a request to `addr` under path `uri` goes to: the
/// scheme follows the client's TLS setting.
pub open spec fn request_url_spec(use_tls: bool, addr: Seq<char>, uri: Seq<char>) -> Seq<char> {
    (if use_tls {
        "https://"@
    } else {
        "http://"@
    }) + addr + seq!['/'] + uri
}

/// Builds the URL of one RPC: `http://addr/uri`, or `https://addr/uri`
/// when the client talks TLS.
pub fn request_url(use_tls: bool, addr: &str, uri: &str) -> (r: String)
    ensures
        r@ == request_url_spec(use_tls, addr@, uri@),
{
    let mut url = if use_tls {
        String::from_str("https://")
    } else {
        String::from_str("http://")
    };
    url.append(addr);
    url.append("/");
    url.append(uri);
    proof {
        reveal_strlit("/");
        assert(url@ =~= request_url_spec(use_tls, addr@, uri@));
    }
    url
}

/// The error text of a fetch that expected a row and got none.
pub open spec fn no_row_error() -> Seq<char> {
    "no row matching query"@
}

/// Turns a response envelope into an execute/fetch-all result: the rows
/// on success, the engine's error text as the error, and no payload at
/// all (a membership-change response) as an empty row set.
pub fn execute_response(res: ClientWriteResponse) -> (r: Result<Rows, String>)
    ensures
        match res.data {
            Some(MessageResponse::Rows(rows)) => r == Ok::<Rows, String>(rows),
            Some(MessageResponse::Error(e)) => r == Err::<Rows, String>(e),
            None => r matches Ok(v) && v@.len() == 0,
        },
{
    match res.data {
        Some(MessageResponse::Rows(rows)) => Ok(rows),
        Some(MessageResponse::Error(e)) => Err(e),
        None => Ok(Vec::new()),
    }
}

/// Turns a response envelope into a fetch-one result: the first row
/// when at least one came back, and an error when none matched — the
/// caller asked for exactly one.
pub fn fetch_one_response(res: ClientWriteResponse) -> (r: Result<Row, String>)
    ensures
        match res.data {
            Some(MessageResponse::Rows(rows)) => if rows@.len() >= 1 {
                r == Ok::<Row, String>(rows@[0])
            } else {
                r matches Err(e) && e@ == no_row_error()
            },
            Some(MessageResponse::Error(e)) => r == Err::<Row, String>(e),
            None => r matches Err(e) && e@ == no_row_error(),
        },
{
    match res.data {
        Some(MessageResponse::Rows(rows)) => {
            let mut rows = rows;
            if rows.len() >= 1 {
                Ok(rows.remove(0))
            } else {
                Err(String::from_str("no row matching query"))
            }
        },
        Some(MessageResponse::Error(e)) => Err(e),
        None => Err(String::from_str("no row matching query")),
    }
}

/// Turns a response envelope into a fetch-optional result: the first
/// row if one came back, `None` if none matched.
pub fn fetch_optional_response(res: ClientWriteResponse) -> (r: Result<Option<Row>, String>)
    ensures
        match res.data {
            Some(MessageResponse::Rows(rows)) => if rows@.len() >= 1 {
                r == Ok::<Option<Row>, String>(Some(rows@[0]))
            } else {
                r == Ok::<Option<Row>, String>(None)
            },
            Some(MessageResponse::Error(e)) => r == Err::<Option<Row>, String>(e),
            None => r == Ok::<Option<Row>, String>(None),
        },
{
    match res.data {
        Some(MessageResponse::Rows(rows)) => {
            let mut rows = rows;
            if rows.len() >= 1 {
                Ok(Some(rows.remove(0)))
            } else {
                Ok(None)
            }
        },
        Some(MessageResponse::Error(e)) => Err(e),
        None => Ok(None),
    }
}

} // verus!
