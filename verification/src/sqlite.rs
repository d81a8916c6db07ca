//! The driver of the embedded, file-based engine.

use vstd::prelude::*;
use crate::connection::{fresh_handle_id, is_handle_id, DatabaseConnection};
use crate::contract::{error_message, error_text, shape_execute, shape_query, Operation};
use crate::introspect::{shape_columns, shape_tables, sqlite_column_of_row, table_of_row};
use crate::native::{NativeError, RowSet, WriteOutcome};
use crate::text::{copied_cell, doubled_text, joined, same_text};
use crate::types::{ColumnInfo, ConnectionInfo, DatabaseType, ExecuteResult, QueryResult, TableInfo};

verus! {

/// A live connection to a database file. `S` is the native session, which
/// the driver owns and never looks into.
pub struct SqliteConnection<S> {
    id: String,
    name: String,
    conn: S,
}

impl<S> SqliteConnection<S> {
    /// The native session that the driver owns.
    pub closed spec fn session(&self) -> S {
        self.conn
    }

    /// The handle with the given identifier for an open database file: the
    /// path is its name.
    pub fn with_ident(id: String, path: &str, conn: S) -> (c: Self)
        ensures
            c.ident() == id@,
            c.label() == path@,
            c.session() == conn,
    {
        SqliteConnection { id, name: String::from_str(path), conn }
    }

    /// Makes the handle for a database file that the adapter tried to
    /// open. The handle gets a fresh random identifier and the path as its
    /// name; a failure to open is reported with the engine's message.
    pub fn new(path: &str, opened: Result<S, NativeError>) -> (out: Result<Self, String>)
        ensures
            match opened {
                Ok(conn) => {
                    &&& out is Ok
                    &&& out->Ok_0.session() == conn
                    &&& out->Ok_0.label() == path@
                    &&& is_handle_id(out->Ok_0.ident())
                },
                Err(error) => {
                    &&& out is Err
                    &&& out->Err_0@ == error_text(
                        DatabaseType::Sqlite,
                        Operation::Connect,
                        error.stage,
                        error.message@,
                    )
                },
            },
    {
        match opened {
            Ok(conn) => Ok(Self::with_ident(fresh_handle_id(), path, conn)),
            Err(error) => Err(error_message(DatabaseType::Sqlite, Operation::Connect, &error)),
        }
    }

    /// The native session, for the adapter to run a statement on.
    pub fn conn(&self) -> (conn: &S)
        ensures
            *conn == self.session(),
    {
        &self.conn
    }
}

/// The table that a row of the listing names, if its name is not null.
pub fn table_from_row(namespace: &Option<String>, row: &Vec<Option<String>>) -> (out: Option<TableInfo>)
    ensures
        out.deep_view() == table_of_row(DatabaseType::Sqlite, namespace.deep_view(), row.deep_view()),
{
    if row.len() == 0 {
        return None;
    }
    match &row[0] {
        Some(name) => Some(TableInfo { name: name.clone(), schema: copied_cell(namespace), row_count: None }),
        None => None,
    }
}

/// The column that a row of the table description names, if the row is
/// complete.
pub fn column_from_row(row: &Vec<Option<String>>) -> (out: Option<ColumnInfo>)
    ensures
        out.deep_view() == sqlite_column_of_row(row.deep_view()),
{
    if row.len() < 6 {
        return None;
    }
    let name = match &row[1] {
        Some(name) => name.clone(),
        None => { return None; },
    };
    let data_type = match &row[2] {
        Some(data_type) => data_type.clone(),
        None => { return None; },
    };
    let nullable = match &row[3] {
        Some(not_null) => same_text(not_null.as_str(), "0"),
        None => { return None; },
    };
    let primary_key = match &row[5] {
        Some(position) => !same_text(position.as_str(), "0"),
        None => { return None; },
    };
    Some(ColumnInfo { name, data_type, nullable, default: copied_cell(&row[4]), primary_key })
}

impl<S> DatabaseConnection for SqliteConnection<S> {
    open spec fn engine(&self) -> DatabaseType {
        DatabaseType::Sqlite
    }

    closed spec fn ident(&self) -> Seq<char> {
        self.id@
    }

    closed spec fn label(&self) -> Seq<char> {
        self.name@
    }

    open spec fn namespace(&self) -> Option<Seq<char>> {
        None
    }

    fn info(&self) -> (out: ConnectionInfo) {
        ConnectionInfo {
            id: self.id.clone(),
            name: self.name.clone(),
            db_type: DatabaseType::Sqlite,
            version: String::from_str("3"),
            connected: true,
        }
    }

    fn query(&self, outcome: Result<RowSet, NativeError>, elapsed_ms: u64) -> (out: Result<QueryResult, String>) {
        shape_query(DatabaseType::Sqlite, Operation::Query, outcome, elapsed_ms)
    }

    fn execute(&self, outcome: Result<WriteOutcome, NativeError>, elapsed_ms: u64) -> (out: Result<
        ExecuteResult,
        String,
    >) {
        shape_execute(DatabaseType::Sqlite, outcome, elapsed_ms)
    }

    fn tables_statement(&self) -> (sql: String) {
        String::from_str(
            "SELECT name FROM sqlite_master WHERE type='table' AND name NOT LIKE 'sqlite\\_%' ESCAPE '\\' ORDER BY name",
        )
    }

    fn get_tables(&self, outcome: Result<RowSet, NativeError>) -> (out: Result<Vec<TableInfo>, String>) {
        shape_tables(DatabaseType::Sqlite, &None, outcome)
    }

    fn columns_statement(&self, table: &str) -> (sql: String) {
        let name = doubled_text(table, '"');
        let mut sql = joined("PRAGMA table_info(\"", name.as_str());
        sql.append("\")");
        sql
    }

    fn get_columns(&self, outcome: Result<RowSet, NativeError>) -> (out: Result<Vec<ColumnInfo>, String>) {
        shape_columns(DatabaseType::Sqlite, outcome)
    }

    fn close(&self) {
    }
}

} // verus!
