//! The storage core of a SQL database replicated by consensus: every
//! node holds an ordered log of commands and a state machine that
//! applies committed entries, in index order, to an embedded SQL
//! database.
//!
//! What is verified here is the layer the consensus collaborator drives
//! and the client talks to:
//!
//! - [`log_store`] — the durable, contiguous command log with its vote,
//!   committed-index and purge-watermark records;
//! - [`state_machine`] — the apply pipeline and the whole-database
//!   snapshot protocol used for log compaction and for bootstrapping
//!   lagging members;
//! - [`classifier`] — the pure write/read classifier over SQL text;
//! - [`router`] — the consistency router deciding between the consensus
//!   write path, a local read and a leader redirect;
//! - [`client`] — the leader-tracking client protocol with its bounded
//!   redirect retries;
//! - [`message`], [`types`], [`codec`], [`text`], [`type_info`] — the
//!   wire types, their coercions and encodings;
//! - [`driver`], [`node`], [`testing`], [`cipher`] — the database-driver
//!   face, node configuration, test helpers and the encryption-at-rest
//!   interface.
//!
//! Consensus itself (election, quorum replication), the SQL engine's
//! execution, and all network, disk and TLS plumbing are outside
//! collaborators: the contracts state what this layer hands them and
//! what it does with what they return.

use vstd::prelude::*;

pub mod classifier;
pub mod client;
pub mod cipher;
pub mod codec;
pub mod driver;
pub mod float_bits;
pub mod log_store;
pub mod message;
pub mod node;
pub mod router;
pub mod state_machine;
pub mod testing;
pub mod text;
pub mod type_info;
pub mod types;

verus! {

/// Identifier of a node in the cluster.
pub type NodeId = u64;

} // verus!
