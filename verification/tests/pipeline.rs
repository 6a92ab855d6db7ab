use snom_sql::wire::{
    ColumnDescriptor, RawCell, RawRow, WireType, BOOL_OID, BYTEA_OID, DATE_OID, FLOAT8_OID,
    INT4_OID, INT8_OID, TEXT_OID, TIMESTAMPTZ_OID, TIMESTAMP_OID,
};
use snom_sql::{
    connection_test_step, query_step, BackendKind, ConnectionTestEvent, ConnectionTestStep,
    DatabaseConnection, QueryEvent, QueryStep,
};

fn profile(database_type: &str) -> DatabaseConnection {
    DatabaseConnection {
        id: 1,
        nickname: "local".to_string(),
        database_type: database_type.to_string(),
        database_uri: "postgres://app@localhost:5432/app".to_string(),
        host: "localhost".to_string(),
        port: Some("5432".to_string()),
        user: "app".to_string(),
        password: String::new(),
        database_name: "app".to_string(),
        schema: "public".to_string(),
    }
}

fn column(name: &str, oid: u32, wire_name: &str) -> ColumnDescriptor {
    ColumnDescriptor {
        name: name.to_string(),
        wire_type: WireType { oid, name: wire_name.to_string() },
    }
}

fn one_row() -> Vec<RawRow> {
    vec![RawRow {
        columns: vec![column("n", INT8_OID, "int8"), column("t", TEXT_OID, "text")],
        cells: vec![
            RawCell { bytes: Some(1i64.to_be_bytes().to_vec()), float_text: None },
            RawCell { bytes: None, float_text: None },
        ],
    }]
}

fn query_events() -> Vec<QueryEvent> {
    vec![
        QueryEvent::Start,
        QueryEvent::TlsUnavailable("no trust store".to_string()),
        QueryEvent::ConnectionFailed("refused".to_string()),
        QueryEvent::Connected,
        QueryEvent::QueryFailed("syntax error".to_string()),
        QueryEvent::Rows(one_row()),
        QueryEvent::Rows(Vec::new()),
        QueryEvent::PrepareFailed("gone".to_string()),
        QueryEvent::Prepared(vec![column("n", INT8_OID, "int8")]),
    ]
}

fn test_events() -> Vec<ConnectionTestEvent> {
    vec![
        ConnectionTestEvent::Start,
        ConnectionTestEvent::TlsUnavailable("no trust store".to_string()),
        ConnectionTestEvent::ConnectionFailed("refused".to_string()),
        ConnectionTestEvent::Connected,
        ConnectionTestEvent::QueryFailed("syntax error".to_string()),
        ConnectionTestEvent::QuerySucceeded,
    ]
}

fn query_error(step: QueryStep) -> String {
    match step {
        QueryStep::Done(Err(message)) => message,
        other => panic!("not a failure: {:?}", other),
    }
}

fn test_error(step: ConnectionTestStep) -> String {
    match step {
        ConnectionTestStep::Done(Err(message)) => message,
        other => panic!("not a failure: {:?}", other),
    }
}

#[test]
fn engine_names_are_taken_letter_for_letter() {
    assert_eq!(profile("postgres").backend_kind(), BackendKind::Postgres);
    assert_eq!(profile("mysql").backend_kind(), BackendKind::Mysql);
    assert_eq!(profile("sqlite").backend_kind(), BackendKind::Sqlite);
    assert_eq!(profile("Postgres").backend_kind(), BackendKind::Unsupported);
    assert_eq!(profile("postgresql").backend_kind(), BackendKind::Unsupported);
    assert_eq!(profile(" mysql").backend_kind(), BackendKind::Unsupported);
    assert_eq!(profile("").backend_kind(), BackendKind::Unsupported);
    assert_eq!(profile("oracle").backend_kind(), BackendKind::Unsupported);
}

#[test]
fn unknown_engine_is_refused_by_the_query() {
    for name in ["oracle", "", "POSTGRES", "mssql"] {
        for event in query_events() {
            let step = query_step(&profile(name), "SELECT 1", event);
            assert_eq!(query_error(step), "Unsupported database type");
        }
    }
}

#[test]
fn unknown_engine_is_refused_by_the_connection_test() {
    for name in ["oracle", "", "POSTGRES", "mssql"] {
        for event in test_events() {
            let step = connection_test_step(&profile(name), event);
            assert_eq!(test_error(step), "Unsupported database type");
        }
    }
}

#[test]
fn mysql_is_not_implemented_yet() {
    for event in query_events() {
        let step = query_step(&profile("mysql"), "SELECT 1", event);
        assert_eq!(query_error(step), "MySQL query execution not implemented yet");
    }
    for event in test_events() {
        let step = connection_test_step(&profile("mysql"), event);
        assert_eq!(test_error(step), "MySQL connection test not implemented yet");
    }
}

#[test]
fn sqlite_is_not_implemented_yet() {
    for event in query_events() {
        let step = query_step(&profile("sqlite"), "SELECT 1", event);
        assert_eq!(query_error(step), "SQLite query execution not implemented yet");
    }
    for event in test_events() {
        let step = connection_test_step(&profile("sqlite"), event);
        assert_eq!(test_error(step), "SQLite connection test not implemented yet");
    }
}

#[test]
fn query_starts_by_connecting_to_the_uri() {
    match query_step(&profile("postgres"), "SELECT 1", QueryEvent::Start) {
        QueryStep::Connect { uri } => assert_eq!(uri, "postgres://app@localhost:5432/app"),
        other => panic!("not a connect: {:?}", other),
    }
}

#[test]
fn query_is_sent_verbatim() {
    let sql = "  select *\nfrom \"T\" where a = 'x; --' ";
    match query_step(&profile("postgres"), sql, QueryEvent::Connected) {
        QueryStep::Query { sql: sent } => assert_eq!(sent, sql),
        other => panic!("not a query: {:?}", other),
    }
}

#[test]
fn query_failures_hold_the_driver_error() {
    let p = profile("postgres");
    assert_eq!(
        query_error(query_step(&p, "q", QueryEvent::TlsUnavailable("no trust store".to_string()))),
        "Failed to create TLS connector: no trust store"
    );
    assert_eq!(
        query_error(query_step(&p, "q", QueryEvent::ConnectionFailed("refused".to_string()))),
        "Postgres connection failed: refused"
    );
    assert_eq!(
        query_error(query_step(&p, "q", QueryEvent::QueryFailed("syntax error".to_string()))),
        "Postgres query failed: syntax error"
    );
    assert_eq!(
        query_error(query_step(&p, "q", QueryEvent::PrepareFailed("gone".to_string()))),
        "Failed to prepare statement to get columns: gone"
    );
    assert_eq!(
        query_error(query_step(&p, "q", QueryEvent::QueryFailed(String::new()))),
        "Postgres query failed: "
    );
}

#[test]
fn rows_end_the_query_with_their_table() {
    match query_step(&profile("postgres"), "SELECT n, t FROM x", QueryEvent::Rows(one_row())) {
        QueryStep::Done(Ok(table)) => {
            assert_eq!(table.columns, vec!["n".to_string(), "t".to_string()]);
            assert_eq!(table.rows, vec![vec!["1".to_string(), "NULL".to_string()]]);
        }
        other => panic!("not a table: {:?}", other),
    }
}

#[test]
fn no_rows_ask_for_the_statement_to_be_prepared() {
    let sql = "SELECT 1 WHERE false";
    match query_step(&profile("postgres"), sql, QueryEvent::Rows(Vec::new())) {
        QueryStep::Prepare { sql: prepared } => assert_eq!(prepared, sql),
        other => panic!("not a prepare: {:?}", other),
    }
}

#[test]
fn prepared_columns_end_the_query_with_an_empty_table() {
    let columns = vec![column("?column?", 23, "int4")];
    match query_step(&profile("postgres"), "SELECT 1 WHERE false", QueryEvent::Prepared(columns)) {
        QueryStep::Done(Ok(table)) => {
            assert_eq!(table.columns, vec!["?column?".to_string()]);
            assert!(table.rows.is_empty());
        }
        other => panic!("not a table: {:?}", other),
    }
}

#[test]
fn a_statement_without_columns_gives_a_table_without_columns() {
    match query_step(&profile("postgres"), "CREATE TABLE t ()", QueryEvent::Prepared(Vec::new())) {
        QueryStep::Done(Ok(table)) => {
            assert!(table.columns.is_empty());
            assert!(table.rows.is_empty());
        }
        other => panic!("not a table: {:?}", other),
    }
}

#[test]
fn the_same_reports_give_the_same_table() {
    let p = profile("postgres");
    let first = query_step(&p, "SELECT n, t FROM x", QueryEvent::Rows(one_row()));
    let second = query_step(&p, "SELECT n, t FROM x", QueryEvent::Rows(one_row()));
    match (first, second) {
        (QueryStep::Done(Ok(a)), QueryStep::Done(Ok(b))) => assert_eq!(a, b),
        other => panic!("not two tables: {:?}", other),
    }
}

#[test]
fn connection_test_starts_by_connecting_to_the_uri() {
    match connection_test_step(&profile("postgres"), ConnectionTestEvent::Start) {
        ConnectionTestStep::Connect { uri } => assert_eq!(uri, "postgres://app@localhost:5432/app"),
        other => panic!("not a connect: {:?}", other),
    }
}

#[test]
fn connection_test_sends_the_canary() {
    match connection_test_step(&profile("postgres"), ConnectionTestEvent::Connected) {
        ConnectionTestStep::Query { sql } => assert_eq!(sql, "SELECT 1"),
        other => panic!("not a query: {:?}", other),
    }
}

#[test]
fn connection_test_confirms_success() {
    match connection_test_step(&profile("postgres"), ConnectionTestEvent::QuerySucceeded) {
        ConnectionTestStep::Done(Ok(confirmation)) => {
            assert_eq!(confirmation, "Postgres connection successful!")
        }
        other => panic!("not a confirmation: {:?}", other),
    }
}

#[test]
fn connection_test_failures_hold_the_driver_error() {
    let p = profile("postgres");
    assert_eq!(
        test_error(connection_test_step(
            &p,
            ConnectionTestEvent::TlsUnavailable("no trust store".to_string())
        )),
        "Failed to create TLS connector: no trust store"
    );
    assert_eq!(
        test_error(connection_test_step(
            &p,
            ConnectionTestEvent::ConnectionFailed("refused".to_string())
        )),
        "Postgres connection failed: refused"
    );
    assert_eq!(
        test_error(connection_test_step(&p, ConnectionTestEvent::QueryFailed("down".to_string()))),
        "Postgres query failed: down"
    );
}

#[test]
fn a_query_runs_to_its_table_step_by_step() {
    let p = profile("postgres");
    let sql = "SELECT n, t FROM x";
    let mut event = QueryEvent::Start;
    let mut steps = 0;
    let table = loop {
        steps += 1;
        match query_step(&p, sql, event) {
            QueryStep::Connect { .. } => event = QueryEvent::Connected,
            QueryStep::Query { .. } => event = QueryEvent::Rows(Vec::new()),
            QueryStep::Prepare { .. } => {
                event = QueryEvent::Prepared(vec![column("n", INT8_OID, "int8")])
            }
            QueryStep::Done(outcome) => break outcome,
        }
    };
    assert_eq!(steps, 4);
    let table = table.unwrap();
    assert_eq!(table.columns, vec!["n".to_string()]);
    assert!(table.rows.is_empty());
}

fn plain(bytes: Vec<u8>) -> RawCell {
    RawCell { bytes: Some(bytes), float_text: None }
}

#[test]
fn known_values_are_displayed_in_their_formats() {
    let moment: i64 = (8767 * 86_400 + 3 * 3600 + 4 * 60 + 5) * 1_000_000;
    let columns = vec![
        column("i", INT4_OID, "int4"),
        column("b", INT8_OID, "int8"),
        column("f", FLOAT8_OID, "float8"),
        column("ok", BOOL_OID, "bool"),
        column("d", DATE_OID, "date"),
        column("ts", TIMESTAMP_OID, "timestamp"),
        column("tz", TIMESTAMPTZ_OID, "timestamptz"),
        column("s", TEXT_OID, "text"),
        column("raw", BYTEA_OID, "bytea"),
        column("n", TEXT_OID, "text"),
    ];
    let cells = vec![
        plain((-17i32).to_be_bytes().to_vec()),
        plain(9_000_000_000i64.to_be_bytes().to_vec()),
        RawCell {
            bytes: Some(2.5f64.to_be_bytes().to_vec()),
            float_text: Some(format!("{}", 2.5f64)),
        },
        plain(vec![1]),
        plain(8767i32.to_be_bytes().to_vec()),
        plain((moment + 250).to_be_bytes().to_vec()),
        plain(moment.to_be_bytes().to_vec()),
        plain("caf\u{e9}".as_bytes().to_vec()),
        plain(vec![0; 5]),
        RawCell { bytes: None, float_text: None },
    ];
    let rows = vec![RawRow { columns, cells }];
    match query_step(&profile("postgres"), "SELECT * FROM samples", QueryEvent::Rows(rows)) {
        QueryStep::Done(Ok(table)) => {
            assert_eq!(
                table.columns,
                vec!["i", "b", "f", "ok", "d", "ts", "tz", "s", "raw", "n"]
            );
            assert_eq!(
                table.rows,
                vec![vec![
                    "-17",
                    "9000000000",
                    "2.5",
                    "true",
                    "2024-01-02",
                    "2024-01-02 03:04:05.000250",
                    "2024-01-02T03:04:05+00:00",
                    "caf\u{e9}",
                    "[5 bytes]",
                    "NULL",
                ]]
            );
        }
        other => panic!("not a table: {:?}", other),
    }
}
