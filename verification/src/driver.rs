//! Types of the database-driver face of the library: connect options,
//! query results and column values as a generic SQL toolkit sees them.

use vstd::prelude::*;

verus! {

use crate::client::{ConnectOptions, RSQliteClientTlsConfig};
use crate::message::{FromValueRef, Value};
use crate::type_info::RXQLiteTypeInfo;

/// Marker type of this database driver.
#[derive(Debug, Clone, Copy)]
pub struct RXQLite;

/// The transaction manager of the driver. Transactions span at most one
/// consensus write, so the manager carries no state.
#[derive(Debug, Clone, Copy)]
pub struct RXQLiteTransactionManager;

/// The summary of an executed statement.
#[derive(Debug, Clone, Copy, PartialEq, Eq, Structural)]
pub struct RaftSqliteQueryResult {
    pub changes: u64,
    pub last_insert_rowid: i64,
}

impl Default for RaftSqliteQueryResult {
    fn default() -> (r: RaftSqliteQueryResult)
        ensures
            r.changes == 0,
            r.last_insert_rowid == 0,
    {
        RaftSqliteQueryResult { changes: 0, last_insert_rowid: 0 }
    }
}

impl RaftSqliteQueryResult {
    /// How many rows the statement changed.
    pub fn rows_affected(&self) -> (r: u64)
        ensures
            r == self.changes,
    {
        self.changes
    }

    /// The rowid of the last inserted row.
    pub fn last_insert_rowid(&self) -> (r: i64)
        ensures
            r == self.last_insert_rowid,
    {
        self.last_insert_rowid
    }

    /// Folds another statement's summary into this one: changes add up,
    /// the later rowid wins.
    pub fn merge(&mut self, other: RaftSqliteQueryResult)
        requires
            old(self).changes + other.changes <= u64::MAX,
        ensures
            final(self).changes == old(self).changes + other.changes,
            final(self).last_insert_rowid == other.last_insert_rowid,
    {
        self.changes = self.changes + other.changes;
        self.last_insert_rowid = other.last_insert_rowid;
    }
}

/// Connect options of the driver face: a thin builder over the client's
/// connect options.
#[derive(Debug)]
pub struct RXQLiteConnectOptions {
    pub inner: ConnectOptions,
}

impl RXQLiteConnectOptions {
    /// Sets the believed leader's node id.
    pub fn leader_id(self, leader_id: u64) -> (r: RXQLiteConnectOptions)
        ensures
            r.inner.leader_id == leader_id,
            r.inner.leader_host@ == self.inner.leader_host@,
            r.inner.leader_port == self.inner.leader_port,
            r.inner.tls_config == self.inner.tls_config,
    {
        let mut s = self;
        s.inner.leader_id = leader_id;
        s
    }

    /// Sets the host to connect to.
    pub fn host(self, host: &str) -> (r: RXQLiteConnectOptions)
        ensures
            r.inner.leader_id == self.inner.leader_id,
            r.inner.leader_host@ == host@,
            r.inner.leader_port == self.inner.leader_port,
            r.inner.tls_config == self.inner.tls_config,
    {
        let mut s = self;
        s.inner.leader_host = host.to_owned();
        s
    }

    /// Sets the port to connect to.
    pub fn port(self, port: u16) -> (r: RXQLiteConnectOptions)
        ensures
            r.inner.leader_id == self.inner.leader_id,
            r.inner.leader_host@ == self.inner.leader_host@,
            r.inner.leader_port == port,
            r.inner.tls_config == self.inner.tls_config,
    {
        let mut s = self;
        s.inner.leader_port = port;
        s
    }

    /// Switches TLS on with certificate checking, or off entirely.
    pub fn use_ssl(self, use_ssl: bool) -> (r: RXQLiteConnectOptions)
        ensures
            r.inner.leader_id == self.inner.leader_id,
            r.inner.leader_host@ == self.inner.leader_host@,
            r.inner.leader_port == self.inner.leader_port,
            use_ssl ==> (r.inner.tls_config matches Some(cfg) && !cfg.accept_invalid_certificates
                && cfg.cert_paths@.len() == 0),
            !use_ssl ==> r.inner.tls_config is None,
    {
        let mut s = self;
        if use_ssl {
            s.inner.tls_config = Some(RSQliteClientTlsConfig::default());
        } else {
            s.inner.tls_config = None;
        }
        s
    }

    /// Switches TLS on (if it was off) and sets whether invalid
    /// certificates are accepted.
    pub fn use_insecure_ssl(self, use_insecure_ssl: bool) -> (r: RXQLiteConnectOptions)
        ensures
            r.inner.leader_id == self.inner.leader_id,
            r.inner.leader_host@ == self.inner.leader_host@,
            r.inner.leader_port == self.inner.leader_port,
            r.inner.tls_config matches Some(cfg) && cfg.accept_invalid_certificates
                == use_insecure_ssl && cfg.cert_paths@ == match self.inner.tls_config {
                Some(old_cfg) => old_cfg.cert_paths@,
                None => Seq::<String>::empty(),
            },
    {
        let mut s = self;
        let mut cfg = match s.inner.tls_config {
            Some(c) => c,
            None => RSQliteClientTlsConfig::default(),
        };
        cfg.accept_invalid_certificates = use_insecure_ssl;
        proof {
            assert(match self.inner.tls_config {
                Some(old_cfg) => cfg.cert_paths@ == old_cfg.cert_paths@,
                None => cfg.cert_paths@ == Seq::<String>::empty(),
            }) by {
                if self.inner.tls_config is None {
                    assert(cfg.cert_paths@ =~= Seq::<String>::empty());
                }
            }
        }
        s.inner.tls_config = Some(cfg);
        s
    }

    /// Adds a certificate path, switching TLS on if it was off.
    pub fn add_cert_path(self, cert_path: String) -> (r: RXQLiteConnectOptions)
        ensures
            r.inner.leader_id == self.inner.leader_id,
            r.inner.leader_host@ == self.inner.leader_host@,
            r.inner.leader_port == self.inner.leader_port,
            r.inner.tls_config matches Some(cfg) && cfg.cert_paths@ == (match self
                .inner
                .tls_config {
                Some(old_cfg) => old_cfg.cert_paths@,
                None => Seq::<String>::empty(),
            }).push(cert_path) && cfg.accept_invalid_certificates == match self.inner.tls_config {
                Some(old_cfg) => old_cfg.accept_invalid_certificates,
                None => false,
            },
    {
        let mut s = self;
        let mut cfg = match s.inner.tls_config {
            Some(c) => c,
            None => RSQliteClientTlsConfig::default(),
        };
        cfg.cert_paths.push(cert_path);
        proof {
            if self.inner.tls_config is None {
                assert(cfg.cert_paths@ =~= Seq::<String>::empty().push(cert_path));
            }
        }
        s.inner.tls_config = Some(cfg);
        s
    }

    /// Replaces the TLS configuration.
    pub fn tls_config(self, tls_config: Option<RSQliteClientTlsConfig>) -> (r:
        RXQLiteConnectOptions)
        ensures
            r.inner.leader_id == self.inner.leader_id,
            r.inner.leader_host@ == self.inner.leader_host@,
            r.inner.leader_port == self.inner.leader_port,
            r.inner.tls_config == tls_config,
    {
        let mut s = self;
        s.inner.tls_config = tls_config;
        s
    }
}

/// One column value with its type information.
#[derive(Debug)]
pub struct RaftSqliteValue {
    pub handle: Value,
    pub type_info: RXQLiteTypeInfo,
}

impl RaftSqliteValue {
    pub fn new(value: Value, type_info: RXQLiteTypeInfo) -> (r: RaftSqliteValue)
        ensures
            r.handle == value,
            r.type_info == type_info,
    {
        RaftSqliteValue { handle: value, type_info }
    }

    /// The value's type information, when it has one.
    pub fn type_info_opt(&self) -> (r: Option<RXQLiteTypeInfo>)
        ensures
            r == Some(self.type_info),
    {
        Some(self.type_info)
    }

    /// The value's type information.
    pub fn type_info(&self) -> (r: RXQLiteTypeInfo)
        ensures
            r == self.type_info,
    {
        self.type_info
    }

    /// Whether the column holds the null value.
    pub fn is_null(&self) -> (r: bool)
        ensures
            r == (self.type_info.0 is Null),
    {
        self.type_info.is_null()
    }

    /// A borrowed view of this value.
    pub fn as_ref(&self) -> (r: RaftSqliteValueRef<'_>)
        ensures
            r.inner == self,
    {
        RaftSqliteValueRef::value(self)
    }
}

/// A borrowed view of one column value.
pub struct RaftSqliteValueRef<'r> {
    pub inner: &'r RaftSqliteValue,
}

impl<'r> RaftSqliteValueRef<'r> {
    pub fn value(value: &'r RaftSqliteValue) -> (r: RaftSqliteValueRef<'r>)
        ensures
            r.inner == value,
    {
        RaftSqliteValueRef { inner: value }
    }

    /// The column as a 32-bit integer, by the wire coercion rules.
    pub fn int_value(&self) -> (r: Result<i32, String>)
        ensures
            r matches Ok(v) && <i32 as FromValueRef>::value_matches(self.inner.handle, v),
    {
        Ok(i32::from_value_ref(&self.inner.handle))
    }

    /// The column as a 64-bit integer, by the wire coercion rules.
    pub fn int64(&self) -> (r: Result<i64, String>)
        ensures
            r matches Ok(v) && <i64 as FromValueRef>::value_matches(self.inner.handle, v),
    {
        Ok(i64::from_value_ref(&self.inner.handle))
    }

    /// The column as text, by the wire coercion rules.
    pub fn text(&self) -> (r: Result<String, String>)
        ensures
            r matches Ok(v) && <String as FromValueRef>::value_matches(self.inner.handle, v),
    {
        Ok(String::from_value_ref(&self.inner.handle))
    }

    /// The type information of the column.
    pub fn type_info(&self) -> (r: RXQLiteTypeInfo)
        ensures
            r == self.inner.type_info,
    {
        self.inner.type_info
    }

    /// Whether the column holds the null value.
    pub fn is_null(&self) -> (r: bool)
        ensures
            r == (self.inner.type_info.0 is Null),
    {
        self.inner.is_null()
    }
}

} // verus!
