//! Server-side configuration of one node: command-line options, the
//! per-instance parameters persisted across restarts, node TLS settings,
//! and the builders of the inter-node RPC layer.

use vstd::prelude::*;

verus! {

use crate::NodeId;

/// Command-line options of the node binary. The unverified edge parses
/// the command line into this shape.
#[derive(Debug, Clone)]
pub struct Opt {
    pub id: NodeId,
    pub http_addr: Option<String>,
    pub rpc_addr: Option<String>,
    pub leader: Option<bool>,
    /// Member specifications, each `id;http_addr;rpc_addr`.
    pub member: Vec<String>,
    pub key_path: Option<String>,
    pub cert_path: Option<String>,
    pub accept_invalid_certificates: Option<bool>,
    pub no_database_encryption: Option<bool>,
    pub notifications_addr: Option<String>,
}

/// Server-side TLS settings of one node.
#[derive(Debug, Clone)]
pub struct RSQliteNodeTlsConfig {
    pub key_path: String,
    pub cert_path: String,
    pub accept_invalid_certificates: bool,
}

/// The addresses and TLS settings an instance was initialized with,
/// persisted at bootstrap and read back on every later start.
#[derive(Debug, Clone)]
pub struct InstanceParams {
    pub http_addr: String,
    pub rpc_addr: String,
    pub notifications_addr: String,
    pub tls_config: Option<RSQliteNodeTlsConfig>,
}

/// The network factory handed to the consensus collaborator: it opens
/// one lazily-built, independently reconnectable connection per peer,
/// with these TLS settings. The storage core never holds network state.
#[derive(Debug, Clone)]
pub struct Network {
    pub tls_config: Option<RSQliteNodeTlsConfig>,
}

/// The empty request body of management calls that take no argument.
#[derive(Debug, Clone, Copy)]
pub struct Empty {}

/// Builder of one RPC client connection between nodes. Durations are
/// carried in milliseconds.
#[derive(Debug, Clone, Copy, PartialEq, Eq, Structural)]
pub struct ClientBuilder {
    /// How long a publisher waits for an acknowledgement, without
    /// blocking, before retrying.
    pub pub_retry_timeout_millis: u64,
    /// How many retries a publisher attempts when the acknowledgement
    /// does not arrive.
    pub max_num_retries: u32,
}

/// Default acknowledgement wait of a publisher, in milliseconds.
pub const DEFAULT_PUB_RETRY_TIMEOUT_MILLIS: u64 = 10_000;

/// Default number of publisher retries.
pub const DEFAULT_PUB_RETRIES: u32 = 10;

impl ClientBuilder {
    /// A builder with the default retry policy.
    pub fn new() -> (r: ClientBuilder)
        ensures
            r.pub_retry_timeout_millis == DEFAULT_PUB_RETRY_TIMEOUT_MILLIS,
            r.max_num_retries == DEFAULT_PUB_RETRIES,
    {
        ClientBuilder {
            pub_retry_timeout_millis: DEFAULT_PUB_RETRY_TIMEOUT_MILLIS,
            max_num_retries: DEFAULT_PUB_RETRIES,
        }
    }
}

impl Default for ClientBuilder {
    fn default() -> (r: ClientBuilder)
        ensures
            r.pub_retry_timeout_millis == DEFAULT_PUB_RETRY_TIMEOUT_MILLIS,
            r.max_num_retries == DEFAULT_PUB_RETRIES,
    {
        ClientBuilder::new()
    }
}

} // verus!
