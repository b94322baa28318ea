//! Tests of the write/read query classifier, run against the real SQL
//! parser.

use rxqlite::classifier::{classify_statements, is_query_write, StatementKind};
use rxqlite::type_info::{DataType, RXQLiteTypeInfo};

#[test]
fn write_read_classification() {
    assert!(!is_query_write("SELECT * FROM t"));
    assert!(is_query_write("SELECT * FROM t FOR UPDATE"));
    assert!(is_query_write("INSERT INTO t(v) VALUES ('x')"));
    assert!(is_query_write("UPDATE t SET v = 'y' WHERE id = 1"));
    assert!(is_query_write("DELETE FROM t WHERE id = 1"));
    // malformed SQL is conservatively a write
    assert!(is_query_write("THIS IS NOT SQL ;;;"));
}

#[test]
fn select_for_share_is_a_write() {
    assert!(is_query_write("SELECT * FROM t FOR SHARE"));
}

#[test]
fn ddl_is_a_write() {
    assert!(is_query_write(
        "CREATE TABLE t(id INTEGER PRIMARY KEY, v TEXT)"
    ));
    assert!(is_query_write("DROP TABLE t"));
}

#[test]
fn idempotent_reclassification() {
    for sql in [
        "SELECT * FROM t",
        "SELECT * FROM t FOR UPDATE",
        "INSERT INTO t(v) VALUES ('x')",
        "not really sql",
        "",
    ] {
        let first = is_query_write(sql);
        let second = is_query_write(sql);
        assert_eq!(first, second);
    }
}

#[test]
fn statement_list_classification() {
    assert!(!classify_statements(&vec![]));
    assert!(!classify_statements(&vec![StatementKind::Query(0)]));
    assert!(classify_statements(&vec![StatementKind::Query(1)]));
    assert!(classify_statements(&vec![
        StatementKind::Query(0),
        StatementKind::Insert
    ]));
    assert!(classify_statements(&vec![StatementKind::Other]));
    assert!(classify_statements(&vec![
        StatementKind::Update,
        StatementKind::Delete
    ]));
}

#[test]
fn test_data_type_from_str() {
    assert_eq!(DataType::Int, DataType::from_str("INT4").unwrap());

    assert_eq!(DataType::Int64, DataType::from_str("INT").unwrap());
    assert_eq!(DataType::Int64, DataType::from_str("INTEGER").unwrap());
    assert_eq!(DataType::Int64, DataType::from_str("INTBIG").unwrap());
    assert_eq!(DataType::Int64, DataType::from_str("MEDIUMINT").unwrap());

    assert_eq!(DataType::Int64, DataType::from_str("BIGINT").unwrap());
    assert_eq!(DataType::Int64, DataType::from_str("UNSIGNED BIG INT").unwrap());
    assert_eq!(DataType::Int64, DataType::from_str("INT8").unwrap());

    assert_eq!(DataType::Text, DataType::from_str("CHARACTER(20)").unwrap());
    assert_eq!(DataType::Text, DataType::from_str("NCHAR(55)").unwrap());
    assert_eq!(DataType::Text, DataType::from_str("TEXT").unwrap());
    assert_eq!(DataType::Text, DataType::from_str("CLOB").unwrap());

    assert_eq!(DataType::Blob, DataType::from_str("BLOB").unwrap());

    assert_eq!(DataType::Float, DataType::from_str("REAL").unwrap());
    assert_eq!(DataType::Float, DataType::from_str("FLOAT").unwrap());
    assert_eq!(DataType::Float, DataType::from_str("DOUBLE PRECISION").unwrap());

    assert_eq!(DataType::Bool, DataType::from_str("BOOLEAN").unwrap());
    assert_eq!(DataType::Bool, DataType::from_str("BOOL").unwrap());

    assert_eq!(DataType::Datetime, DataType::from_str("DATETIME").unwrap());
    assert_eq!(DataType::Time, DataType::from_str("TIME").unwrap());
    assert_eq!(DataType::Date, DataType::from_str("DATE").unwrap());
}

#[test]
fn unknown_type_names_are_rejected() {
    assert!(DataType::from_str("GEOMETRY").is_none());
    assert!(DataType::from_str("").is_none());
}

#[test]
fn type_names_round() {
    assert_eq!(RXQLiteTypeInfo(DataType::Int64).name(), "INTEGER");
    assert_eq!(RXQLiteTypeInfo(DataType::Float).name(), "REAL");
    assert_eq!(RXQLiteTypeInfo(DataType::Bool).name(), "BOOLEAN");
    assert!(RXQLiteTypeInfo(DataType::Null).is_null());
    assert!(!RXQLiteTypeInfo(DataType::Text).is_null());
}
