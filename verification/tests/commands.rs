use db_access::commands::{
    error_message, get_connections, port_for_driver, save_connection, update_cell, write_failed,
    ActiveConnection, Connection, QueryResult, UpdateCellRequest,
};
use db_access::connection::QueryError;
use db_access::storage::StoredConnection;

fn request() -> UpdateCellRequest {
    UpdateCellRequest {
        table_name: "users".to_string(),
        column_name: "name".to_string(),
        new_value: Some("Ann".to_string()),
        primary_key_column: "id".to_string(),
        primary_key_value: "1".to_string(),
    }
}

#[test]
fn successful_update_reports_the_statement() {
    let answer = update_cell(request(), Some(Ok("UPDATE ...".to_string())));
    assert!(answer.success);
    assert!(answer.error.is_none());
    assert_eq!(answer.executed_query.as_deref(), Some("UPDATE ..."));
}

#[test]
fn failed_update_reports_the_error_with_table_and_column() {
    let error = QueryError::with_code("bad value".to_string(), "22P02")
        .with_detail("line 1")
        .with_hint("check the format");
    let answer = update_cell(request(), Some(Err(error)));
    assert!(!answer.success);
    assert_eq!(answer.executed_query, None);
    let e = answer.error.unwrap();
    assert_eq!(e.message, "bad value");
    assert_eq!(e.code.as_deref(), Some("22P02"));
    assert_eq!(e.detail.as_deref(), Some("line 1"));
    assert_eq!(e.hint.as_deref(), Some("check the format"));
    assert_eq!(e.table, "users");
    assert_eq!(e.column, "name");
}

#[test]
fn update_without_connection_says_so() {
    let answer = update_cell(request(), None);
    assert!(!answer.success);
    assert_eq!(answer.executed_query, None);
    let e = answer.error.unwrap();
    assert_eq!(e.message, "No active database connection");
    assert_eq!(e.code.as_deref(), Some("NO_CONNECTION"));
    assert_eq!(e.detail, None);
    assert_eq!(e.hint.as_deref(), Some("Please connect to a database first"));
    assert_eq!(e.table, "users");
    assert_eq!(e.column, "name");
}

#[test]
fn profile_keeps_its_fields_on_the_way_to_the_store_and_back() {
    let conn = Connection {
        id: "abc".to_string(),
        name: "Local".to_string(),
        db_type: "postgresql".to_string(),
        host: "localhost".to_string(),
        port: 5432,
        username: "postgres".to_string(),
        password: "secret".to_string(),
        database: "ledger".to_string(),
        ssl_mode: "required".to_string(),
    };
    let stored = save_connection(&conn);
    assert_eq!(stored.id, "abc");
    assert_eq!(stored.name, "Local");
    assert_eq!(stored.db_type, "postgresql");
    assert_eq!(stored.host, "localhost");
    assert_eq!(stored.port, 5432);
    assert_eq!(stored.username, "postgres");
    assert_eq!(stored.password_encrypted, "secret");
    assert_eq!(stored.database, "ledger");
    assert_eq!(stored.ssl_mode, "required");

    let second = StoredConnection { id: "def".to_string(), password_encrypted: "other".to_string(), ..stored.clone() };
    let back = get_connections(vec![stored, second]);
    assert_eq!(back.len(), 2);
    assert_eq!(back[0].id, "abc");
    assert_eq!(back[0].password, "secret");
    assert_eq!(back[0].database, "ledger");
    assert_eq!(back[1].id, "def");
    assert_eq!(back[1].password, "other");
    assert_eq!(back[1].port, 5432);
    assert!(get_connections(vec![]).is_empty());
}

#[test]
fn port_is_cut_to_its_low_sixteen_bits() {
    assert_eq!(port_for_driver(3306), 3306);
    assert_eq!(port_for_driver(0), 0);
    assert_eq!(port_for_driver(65_535), 65_535);
    assert_eq!(port_for_driver(65_536), 0);
    assert_eq!(port_for_driver(70_000), 4_464);
    assert_eq!(port_for_driver(-1), 65_535);
    for port in [i32::MIN, -65_536, -3306, 1, 99_999, i32::MAX] {
        assert_eq!(port_for_driver(port), port as u16);
    }
}

#[test]
fn slot_holds_one_connection_at_a_time() {
    let mut slot: ActiveConnection<&str> = ActiveConnection::new();
    assert!(!slot.is_connected());
    assert_eq!(slot.active(), Err("No active connection".to_string()));
    assert_eq!(slot.connect("first"), None);
    assert!(slot.is_connected());
    assert_eq!(slot.active(), Ok(&"first"));
    assert_eq!(slot.connect("second"), Some("first"));
    assert_eq!(slot.active(), Ok(&"second"));
    assert_eq!(slot.disconnect(), Some("second"));
    assert!(!slot.is_connected());
    assert_eq!(slot.disconnect(), None);
    assert_eq!(slot.active(), Err("No active connection".to_string()));
}

#[test]
fn query_result_reaches_the_caller_unchanged() {
    let result = db_access::connection::QueryResult {
        columns: vec!["a".to_string()],
        rows: vec![serde_json::Value::from(1)],
        row_count: 1,
        execution_time: 9,
        truncated: false,
    };
    let out = QueryResult::from(result);
    assert_eq!(out.columns, vec!["a"]);
    assert_eq!(out.rows, vec![serde_json::Value::from(1)]);
    assert_eq!(out.row_count, 1);
    assert_eq!(out.execution_time, 9);
    assert!(!out.truncated);
}

#[test]
fn messages_for_the_caller() {
    let e = QueryError::with_code("syntax error".to_string(), "QUERY_ERROR");
    assert_eq!(error_message(e), "syntax error");
    assert_eq!(write_failed("disk full"), "Failed to write file: disk full");
}
