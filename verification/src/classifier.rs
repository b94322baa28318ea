//! The query classifier: decides from the SQL text alone whether a
//! statement must be serialized through the replicated log (a write) or
//! can be answered from local state (a read).
//!
//! The text is parsed with a generic SQL grammar; `INSERT`, `UPDATE`,
//! `DELETE` and anything that is not a plain `SELECT` is a write, a
//! `SELECT` with a row-locking clause (`FOR UPDATE` / `FOR SHARE`) is a
//! write too, and unparseable text is conservatively a write. The
//! classifier is pure and stateless: it never touches the database.

use vstd::prelude::*;

verus! {

/// The shape of one parsed statement, as much of it as classification
/// reads: its kind, and for a query the number of row-locking clauses.
#[derive(Debug, Clone, Copy, PartialEq, Eq, Structural)]
pub enum StatementKind {
    Query(usize),
    Insert,
    Update,
    Delete,
    Other,
}

/// The statements that a generic-SQL parse of the text yields, in
/// order, or `None` when the text does not parse. The parse depends on
/// the text alone.
pub uninterp spec fn parsed_sql(sql: Seq<char>) -> Option<Seq<StatementKind>>;

/// Relies on sqlparser's `Parser::parse_sql` under `GenericDialect`: it
/// parses the text into a statement list, each statement summarized here
/// by its variant, a query by the length of its `locks` list.
#[verifier::external_body]
fn parse_sql_kinds(sql: &str) -> (r: Option<Vec<StatementKind>>)
    ensures
        match r {
            Some(v) => parsed_sql(sql@) == Some(v@),
            None => parsed_sql(sql@) is None,
        },
{
    match sqlparser::parser::Parser::parse_sql(&sqlparser::dialect::GenericDialect {}, sql) {
        Err(_) => None,
        Ok(stmts) => Some(
            stmts.iter().map(
                |s| match s {
                    sqlparser::ast::Statement::Query(q) => StatementKind::Query(q.locks.len()),
                    sqlparser::ast::Statement::Insert { .. } => StatementKind::Insert,
                    sqlparser::ast::Statement::Update { .. } => StatementKind::Update,
                    sqlparser::ast::Statement::Delete { .. } => StatementKind::Delete,
                    _ => StatementKind::Other,
                },
            ).collect(),
        ),
    }
}

/// Whether one parsed statement requires the write path: everything but
/// a query with no row-locking clause.
pub open spec fn stmt_is_write(k: StatementKind) -> bool {
    match k {
        StatementKind::Query(locks) => locks > 0,
        _ => true,
    }
}

/// Whether any statement of the list requires the write path.
pub open spec fn stmts_have_write(ks: Seq<StatementKind>) -> bool {
    exists|i: int| 0 <= i < ks.len() && stmt_is_write(#[trigger] ks[i])
}

/// The classification of a SQL text: a write when any parsed statement
/// needs the log, and, conservatively, when the text does not parse.
pub open spec fn sql_is_write(sql: Seq<char>) -> bool {
    match parsed_sql(sql) {
        Some(ks) => stmts_have_write(ks),
        None => true,
    }
}

/// Classifies a parsed statement list: true exactly when some statement
/// requires the write path.
pub fn classify_statements(kinds: &Vec<StatementKind>) -> (w: bool)
    ensures
        w == stmts_have_write(kinds@),
{
    let n = kinds.len();
    let mut i: usize = 0;
    while i < n
        invariant
            0 <= i <= n,
            n == kinds@.len(),
            forall|j: int| 0 <= j < i ==> !stmt_is_write(#[trigger] kinds@[j]),
        decreases n - i,
    {
        let is_write = match kinds[i] {
            StatementKind::Query(locks) => locks > 0,
            _ => true,
        };
        if is_write {
            return true;
        }
        i = i + 1;
    }
    false
}

/// Classifies a SQL text: true exactly when it must go through the
/// consensus write path.
pub fn is_query_write(sql: &str) -> (w: bool)
    ensures
        w == sql_is_write(sql@),
{
    match parse_sql_kinds(sql) {
        None => true,
        Some(kinds) => classify_statements(&kinds),
    }
}

/// Law: classification is a pure function of the SQL text — classifying
/// the same statement twice always yields the same result.
pub proof fn lemma_classification_deterministic(sql: Seq<char>, w1: bool, w2: bool)
    requires
        w1 == sql_is_write(sql),
        w2 == sql_is_write(sql),
    ensures
        w1 == w2,
{
}

} // verus!
