use rusqlite::types::ValueRef;
use rusqlite::{Connection, OpenFlags};
use unidb::commands::{
    db_connect, db_disconnect, db_execute, db_get_columns, db_get_tables, db_lookup, db_query,
    get_connection_pool,
};
use unidb::connection::{connection_request, ConnectionRequest, DatabaseConnection};
use unidb::native::{NativeError, NativeValue, RowSet, Stage, WriteOutcome};
use unidb::pool::ConnectionPool;
use unidb::types::{ConnectionConfig, ConnectionInfo, DatabaseType, ExecuteResult, QueryResult};

fn failure(stage: Stage, error: rusqlite::Error) -> NativeError {
    NativeError { stage, message: error.to_string() }
}

fn open(request: &ConnectionRequest) -> Result<Connection, NativeError> {
    match request {
        ConnectionRequest::Sqlite { path, read_write, create } => {
            let mut flags = OpenFlags::empty();
            if *read_write {
                flags |= OpenFlags::SQLITE_OPEN_READ_WRITE;
            }
            if *create {
                flags |= OpenFlags::SQLITE_OPEN_CREATE;
            }
            Connection::open_with_flags(path, flags).map_err(|e| failure(Stage::Connect, e))
        }
        other => panic!("not an embedded request: {:?}", other),
    }
}

fn value(cell: ValueRef<'_>) -> NativeValue {
    match cell {
        ValueRef::Null => NativeValue::Null,
        ValueRef::Integer(n) => NativeValue::Integer(n),
        ValueRef::Real(x) => NativeValue::Real(x.to_string()),
        ValueRef::Text(bytes) => match std::str::from_utf8(bytes) {
            Ok(text) => NativeValue::Text(text.to_string()),
            Err(_) => NativeValue::Opaque,
        },
        ValueRef::Blob(_) => NativeValue::Opaque,
    }
}

fn read(conn: &Connection, sql: &str) -> Result<RowSet, NativeError> {
    let mut statement = conn.prepare(sql).map_err(|e| failure(Stage::Prepare, e))?;
    let columns: Vec<String> = statement.column_names().iter().map(|name| name.to_string()).collect();
    let width = columns.len();
    let mut rows = Vec::new();
    let mut cursor = statement.query([]).map_err(|e| failure(Stage::Run, e))?;
    loop {
        let row = match cursor.next().map_err(|e| failure(Stage::Run, e))? {
            Some(row) => row,
            None => break,
        };
        let mut cells = Vec::new();
        for i in 0..width {
            cells.push(match row.get_ref(i) {
                Ok(cell) => value(cell),
                Err(_) => NativeValue::Opaque,
            });
        }
        rows.push(cells);
    }
    Ok(RowSet { columns, rows })
}

fn write(conn: &Connection, sql: &str) -> Result<WriteOutcome, NativeError> {
    let changed = conn.execute(sql, []).map_err(|e| failure(Stage::Run, e))?;
    Ok(WriteOutcome { rows_affected: changed as u64, last_insert_id: conn.last_insert_rowid() })
}

fn config(id: &str) -> ConnectionConfig {
    ConnectionConfig {
        id: id.to_string(),
        name: "scratch".to_string(),
        db_type: DatabaseType::Sqlite,
        host: None,
        port: None,
        database: None,
        username: None,
        password: None,
        file_path: Some(":memory:".to_string()),
    }
}

fn connect(pool: &mut ConnectionPool<Connection>, config: &ConnectionConfig) -> Result<ConnectionInfo, String> {
    let request = connection_request(config)?;
    db_connect(pool, config, open(&request))
}

fn query(pool: &ConnectionPool<Connection>, id: &str, sql: &str) -> Result<QueryResult, String> {
    let outcome = read(db_lookup(pool, id)?.native(), sql);
    db_query(pool, id, outcome, 0)
}

fn execute(pool: &ConnectionPool<Connection>, id: &str, sql: &str) -> Result<ExecuteResult, String> {
    let outcome = write(db_lookup(pool, id)?.native(), sql);
    db_execute(pool, id, outcome, 0)
}

fn text(s: &str) -> Option<String> {
    Some(s.to_string())
}

#[test]
fn embedded_engine_scenario() {
    let mut pool = get_connection_pool();
    let info = connect(&mut pool, &config("main")).unwrap();
    assert_eq!(info.db_type, DatabaseType::Sqlite);
    assert!(info.connected);
    assert_eq!(db_lookup(&pool, "main").unwrap().info().db_type, DatabaseType::Sqlite);

    let created = execute(&pool, "main", "CREATE TABLE t(id INTEGER PRIMARY KEY, name TEXT)").unwrap();
    assert_eq!(created.rows_affected, 0);

    let inserted = execute(&pool, "main", "INSERT INTO t(name) VALUES ('a')").unwrap();
    assert_eq!(inserted.rows_affected, 1);
    assert_eq!(inserted.last_insert_id, Some(1));

    let result = query(&pool, "main", "SELECT * FROM t").unwrap();
    assert_eq!(result.columns, vec!["id".to_string(), "name".to_string()]);
    assert_eq!(result.rows, vec![vec![text("1"), text("a")]]);
    assert_eq!(result.row_count, 1);
}

#[test]
fn embedded_engine_lists_the_created_table() {
    let mut pool = get_connection_pool();
    connect(&mut pool, &config("main")).unwrap();
    execute(&pool, "main", "CREATE TABLE t(id INTEGER PRIMARY KEY, name TEXT)").unwrap();
    let handle = db_lookup(&pool, "main").unwrap();
    let outcome = read(handle.native(), &handle.tables_statement());
    let tables = db_get_tables(&pool, "main", outcome).unwrap();
    assert_eq!(tables.len(), 1);
    assert_eq!(tables[0].name, "t");
    assert_eq!(tables[0].schema, None);
    assert_eq!(tables[0].row_count, None);
}

#[test]
fn embedded_engine_lists_tables_in_order_without_internal_ones() {
    let mut pool = get_connection_pool();
    connect(&mut pool, &config("main")).unwrap();
    execute(&pool, "main", "CREATE TABLE zebra(id INTEGER PRIMARY KEY AUTOINCREMENT)").unwrap();
    execute(&pool, "main", "CREATE TABLE apple(id INTEGER)").unwrap();
    execute(&pool, "main", "CREATE VIEW v AS SELECT id FROM apple").unwrap();
    execute(&pool, "main", "INSERT INTO zebra DEFAULT VALUES").unwrap();
    let handle = db_lookup(&pool, "main").unwrap();
    let tables = db_get_tables(&pool, "main", read(handle.native(), &handle.tables_statement())).unwrap();
    let names: Vec<&str> = tables.iter().map(|t| t.name.as_str()).collect();
    assert_eq!(names, vec!["apple", "zebra"]);
}

#[test]
fn embedded_engine_describes_columns() {
    let mut pool = get_connection_pool();
    connect(&mut pool, &config("main")).unwrap();
    execute(
        &pool,
        "main",
        "CREATE TABLE cards(id INTEGER PRIMARY KEY, title TEXT NOT NULL, priority TEXT DEFAULT 'medium', weight REAL)",
    )
    .unwrap();
    let handle = db_lookup(&pool, "main").unwrap();
    let outcome = read(handle.native(), &handle.columns_statement("cards"));
    let columns = db_get_columns(&pool, "main", outcome).unwrap();
    assert_eq!(columns.len(), 4);
    assert_eq!(columns[0].name, "id");
    assert_eq!(columns[0].data_type, "INTEGER");
    assert!(columns[0].nullable);
    assert_eq!(columns[0].default, None);
    assert!(columns[0].primary_key);
    assert_eq!(columns[1].name, "title");
    assert_eq!(columns[1].data_type, "TEXT");
    assert!(!columns[1].nullable);
    assert!(!columns[1].primary_key);
    assert_eq!(columns[2].name, "priority");
    assert_eq!(columns[2].default, text("'medium'"));
    assert!(columns[2].nullable);
    assert_eq!(columns[3].name, "weight");
    assert_eq!(columns[3].data_type, "REAL");
}

#[test]
fn embedded_engine_unknown_table_has_no_columns() {
    let mut pool = get_connection_pool();
    connect(&mut pool, &config("main")).unwrap();
    let handle = db_lookup(&pool, "main").unwrap();
    let outcome = read(handle.native(), &handle.columns_statement("absent"));
    assert!(db_get_columns(&pool, "main", outcome).unwrap().is_empty());
}

#[test]
fn embedded_engine_empty_result_is_empty() {
    let mut pool = get_connection_pool();
    connect(&mut pool, &config("main")).unwrap();
    execute(&pool, "main", "CREATE TABLE t(id INTEGER PRIMARY KEY, name TEXT)").unwrap();
    let result = query(&pool, "main", "SELECT * FROM t").unwrap();
    assert_eq!(result.row_count, 0);
    assert!(result.columns.is_empty());
    assert!(result.rows.is_empty());
}

#[test]
fn embedded_engine_round_trip_by_key() {
    let mut pool = get_connection_pool();
    connect(&mut pool, &config("main")).unwrap();
    execute(&pool, "main", "CREATE TABLE item(code TEXT PRIMARY KEY, qty INTEGER, price REAL, note TEXT, raw BLOB)")
        .unwrap();
    let inserted = execute(
        &pool,
        "main",
        "INSERT INTO item(code, qty, price, note, raw) VALUES ('k1', -42, 2.5, NULL, x'00ff')",
    )
    .unwrap();
    assert_eq!(inserted.rows_affected, 1);
    execute(&pool, "main", "INSERT INTO item(code, qty) VALUES ('k2', 7)").unwrap();
    let result = query(&pool, "main", "SELECT code, qty, price, note, raw FROM item WHERE code = 'k1'").unwrap();
    assert_eq!(result.row_count, 1);
    assert_eq!(result.columns.len(), 5);
    assert_eq!(result.rows, vec![vec![text("k1"), text("-42"), text("2.5"), None, None]]);
    for row in &result.rows {
        assert_eq!(row.len(), result.columns.len());
    }
}

#[test]
fn embedded_engine_statement_errors_keep_the_connection() {
    let mut pool = get_connection_pool();
    connect(&mut pool, &config("main")).unwrap();
    let bad = query(&pool, "main", "SELEC 1").unwrap_err();
    assert!(bad.starts_with("Prepare error: "));
    assert!(bad.len() > "Prepare error: ".len());
    let missing = execute(&pool, "main", "INSERT INTO nothing VALUES (1)").unwrap_err();
    assert!(missing.starts_with("Execute error: "));
    assert!(missing.contains("nothing"));
    let result = query(&pool, "main", "SELECT 1 AS one, 'x' AS two").unwrap();
    assert_eq!(result.columns, vec!["one".to_string(), "two".to_string()]);
    assert_eq!(result.rows, vec![vec![text("1"), text("x")]]);
}

#[test]
fn embedded_engine_query_after_disconnect_is_a_lookup_error() {
    let mut pool = get_connection_pool();
    connect(&mut pool, &config("main")).unwrap();
    assert!(query(&pool, "main", "SELECT 1").is_ok());
    assert_eq!(db_disconnect(&mut pool, "main"), Ok(()));
    assert_eq!(query(&pool, "main", "SELECT 1").unwrap_err(), "Connection not found");
    assert_eq!(execute(&pool, "main", "SELECT 1").unwrap_err(), "Connection not found");
    assert_eq!(db_disconnect(&mut pool, "main"), Ok(()));
}

#[test]
fn embedded_engine_missing_path_opens_nothing() {
    let mut pool: ConnectionPool<Connection> = get_connection_pool();
    let mut bad = config("main");
    bad.file_path = None;
    assert_eq!(connect(&mut pool, &bad).unwrap_err(), "SQLite requires file_path");
    assert_eq!(pool.len(), 0);
}

#[test]
fn embedded_engine_unopenable_path_is_a_connection_error() {
    let mut pool: ConnectionPool<Connection> = get_connection_pool();
    let mut bad = config("main");
    bad.file_path = Some("/nonexistent-directory-for-this-test/sub/a.db".to_string());
    let message = connect(&mut pool, &bad).unwrap_err();
    assert!(message.starts_with("SQLite connection error: "));
    assert_eq!(pool.len(), 0);
}

#[test]
fn embedded_engine_lists_a_table_whose_name_begins_like_an_internal_one() {
    let mut pool = get_connection_pool();
    connect(&mut pool, &config("main")).unwrap();
    execute(&pool, "main", "CREATE TABLE sqlitex(a TEXT)").unwrap();
    execute(&pool, "main", "CREATE TABLE seq(id INTEGER PRIMARY KEY AUTOINCREMENT)").unwrap();
    execute(&pool, "main", "INSERT INTO seq DEFAULT VALUES").unwrap();
    let handle = db_lookup(&pool, "main").unwrap();
    let tables = db_get_tables(&pool, "main", read(handle.native(), &handle.tables_statement())).unwrap();
    let names: Vec<&str> = tables.iter().map(|t| t.name.as_str()).collect();
    assert_eq!(names, vec!["seq", "sqlitex"]);
}

#[test]
fn embedded_engine_flags_every_member_of_a_composite_key() {
    let mut pool = get_connection_pool();
    connect(&mut pool, &config("main")).unwrap();
    execute(&pool, "main", "CREATE TABLE p(a TEXT, b TEXT, c TEXT, PRIMARY KEY(a, b))").unwrap();
    let handle = db_lookup(&pool, "main").unwrap();
    let outcome = read(handle.native(), &handle.columns_statement("p"));
    let columns = db_get_columns(&pool, "main", outcome).unwrap();
    assert_eq!(columns.len(), 3);
    assert!(columns[0].primary_key);
    assert!(columns[1].primary_key);
    assert!(!columns[2].primary_key);
}

#[test]
fn embedded_engine_describes_every_table_it_lists() {
    let mut pool = get_connection_pool();
    connect(&mut pool, &config("main")).unwrap();
    execute(&pool, "main", "CREATE TABLE [my table](a TEXT)").unwrap();
    execute(&pool, "main", "CREATE TABLE \"say \"\"hi\"\"\"(b INTEGER)").unwrap();
    execute(&pool, "main", "CREATE TABLE \"it's\"(c REAL)").unwrap();
    let handle = db_lookup(&pool, "main").unwrap();
    let tables = db_get_tables(&pool, "main", read(handle.native(), &handle.tables_statement())).unwrap();
    let names: Vec<&str> = tables.iter().map(|t| t.name.as_str()).collect();
    assert_eq!(names, vec!["it's", "my table", "say \"hi\""]);
    let expected = [("c", "REAL"), ("a", "TEXT"), ("b", "INTEGER")];
    for (table, (name, data_type)) in tables.iter().zip(expected) {
        let outcome = read(handle.native(), &handle.columns_statement(&table.name));
        let columns = db_get_columns(&pool, "main", outcome).unwrap();
        assert_eq!(columns.len(), 1);
        assert_eq!(columns[0].name, name);
        assert_eq!(columns[0].data_type, data_type);
    }
}
