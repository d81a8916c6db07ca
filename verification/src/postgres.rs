//! The driver of the client/server engine whose native client is
//! asynchronous. The adapter owns the scheduler that drives that client;
//! the driver sees only completed outcomes.

use vstd::prelude::*;
use crate::connection::{fresh_handle_id, is_handle_id, DatabaseConnection};
use crate::contract::{error_message, error_text, shape_execute, shape_query, Operation};
use crate::introspect::{postgres_column_of_row, shape_columns, shape_tables, table_of_row};
use crate::native::{NativeError, RowSet, WriteOutcome};
use crate::text::{cell_text_or_empty, copied_cell, decimal_of, decimal_text, doubled_text, joined, same_text};
use crate::types::{ColumnInfo, ConnectionInfo, DatabaseType, ExecuteResult, QueryResult, TableInfo};

verus! {

/// A live session with a PostgreSQL server. `S` is the native client
/// together with its scheduler, which the driver owns and never looks into.
pub struct PostgresConnection<S> {
    id: String,
    name: String,
    client: S,
}

/// The connection parameters as one line of `key=value` words.
pub open spec fn connection_string_text(
    host: Seq<char>,
    port: u16,
    username: Seq<char>,
    password: Seq<char>,
    database: Seq<char>,
) -> Seq<char> {
    "host="@ + host + " port="@ + decimal_of(port as nat) + " user="@ + username + " password="@ + password
        + " dbname="@ + database
}

/// The line of connection parameters that the native client parses.
pub fn connection_string(host: &str, port: u16, username: &str, password: &str, database: &str) -> (line: String)
    ensures
        line@ == connection_string_text(host@, port, username@, password@, database@),
{
    let mut line = joined("host=", host);
    line.append(" port=");
    let digits = decimal_text(port as u64);
    line.append(digits.as_str());
    line.append(" user=");
    line.append(username);
    line.append(" password=");
    line.append(password);
    line.append(" dbname=");
    line.append(database);
    line
}

impl<S> PostgresConnection<S> {
    /// The native session that the driver owns.
    pub closed spec fn session(&self) -> S {
        self.client
    }

    /// The handle with the given identifier for an open session: host and
    /// database, with a slash between them, are its name.
    pub fn with_ident(id: String, host: &str, database: &str, client: S) -> (c: Self)
        ensures
            c.ident() == id@,
            c.label() == host@ + "/"@ + database@,
            c.session() == client,
    {
        let mut name = joined(host, "/");
        name.append(database);
        PostgresConnection { id, name, client }
    }

    /// Makes the handle for a session that the adapter tried to open. The
    /// handle gets a fresh random identifier, and host and database as its
    /// name; a failure is reported with the engine's message, under the
    /// step at which it happened.
    pub fn new(host: &str, database: &str, opened: Result<S, NativeError>) -> (out: Result<Self, String>)
        ensures
            match opened {
                Ok(client) => {
                    &&& out is Ok
                    &&& out->Ok_0.session() == client
                    &&& out->Ok_0.label() == host@ + "/"@ + database@
                    &&& is_handle_id(out->Ok_0.ident())
                },
                Err(error) => {
                    &&& out is Err
                    &&& out->Err_0@ == error_text(
                        DatabaseType::Postgres,
                        Operation::Connect,
                        error.stage,
                        error.message@,
                    )
                },
            },
    {
        match opened {
            Ok(client) => Ok(Self::with_ident(fresh_handle_id(), host, database, client)),
            Err(error) => Err(error_message(DatabaseType::Postgres, Operation::Connect, &error)),
        }
    }

    /// The native session, for the adapter to run a statement on.
    pub fn client(&self) -> (client: &S)
        ensures
            *client == self.session(),
    {
        &self.client
    }
}

/// The table that a row of the listing names.
pub fn table_from_row(namespace: &Option<String>, row: &Vec<Option<String>>) -> (out: Option<TableInfo>)
    ensures
        out.deep_view() == table_of_row(DatabaseType::Postgres, namespace.deep_view(), row.deep_view()),
{
    if row.len() == 0 {
        return None;
    }
    Some(TableInfo { name: cell_text_or_empty(&row[0]), schema: copied_cell(namespace), row_count: None })
}

/// The column that a row of the information schema names.
pub fn column_from_row(row: &Vec<Option<String>>) -> (out: Option<ColumnInfo>)
    ensures
        out.deep_view() == postgres_column_of_row(row.deep_view()),
{
    if row.len() < 3 {
        return None;
    }
    let is_nullable = cell_text_or_empty(&row[2]);
    let default = if row.len() > 3 {
        copied_cell(&row[3])
    } else {
        None
    };
    let primary_key = if row.len() > 4 {
        let is_key = cell_text_or_empty(&row[4]);
        same_text(is_key.as_str(), "YES")
    } else {
        false
    };
    Some(
        ColumnInfo {
            name: cell_text_or_empty(&row[0]),
            data_type: cell_text_or_empty(&row[1]),
            nullable: same_text(is_nullable.as_str(), "YES"),
            default,
            primary_key,
        },
    )
}

impl<S> DatabaseConnection for PostgresConnection<S> {
    open spec fn engine(&self) -> DatabaseType {
        DatabaseType::Postgres
    }

    closed spec fn ident(&self) -> Seq<char> {
        self.id@
    }

    closed spec fn label(&self) -> Seq<char> {
        self.name@
    }

    open spec fn namespace(&self) -> Option<Seq<char>> {
        Some("public"@)
    }

    fn info(&self) -> (out: ConnectionInfo) {
        ConnectionInfo {
            id: self.id.clone(),
            name: self.name.clone(),
            db_type: DatabaseType::Postgres,
            version: String::from_str("PostgreSQL"),
            connected: true,
        }
    }

    fn query(&self, outcome: Result<RowSet, NativeError>, elapsed_ms: u64) -> (out: Result<QueryResult, String>) {
        shape_query(DatabaseType::Postgres, Operation::Query, outcome, elapsed_ms)
    }

    fn execute(&self, outcome: Result<WriteOutcome, NativeError>, elapsed_ms: u64) -> (out: Result<
        ExecuteResult,
        String,
    >) {
        shape_execute(DatabaseType::Postgres, outcome, elapsed_ms)
    }

    fn tables_statement(&self) -> (sql: String) {
        String::from_str(
            "SELECT table_name FROM information_schema.tables WHERE table_schema = 'public' AND table_type = 'BASE TABLE' ORDER BY table_name",
        )
    }

    fn get_tables(&self, outcome: Result<RowSet, NativeError>) -> (out: Result<Vec<TableInfo>, String>) {
        let namespace = Some(String::from_str("public"));
        shape_tables(DatabaseType::Postgres, &namespace, outcome)
    }

    fn columns_statement(&self, table: &str) -> (sql: String) {
        let name = doubled_text(table, '\'');
        let mut sql = joined(
            "SELECT c.column_name, c.data_type, c.is_nullable, c.column_default, CASE WHEN EXISTS (SELECT 1 FROM information_schema.table_constraints tc JOIN information_schema.key_column_usage k ON k.constraint_schema = tc.constraint_schema AND k.constraint_name = tc.constraint_name AND k.table_schema = tc.table_schema AND k.table_name = tc.table_name WHERE tc.constraint_type = 'PRIMARY KEY' AND tc.table_schema = c.table_schema AND tc.table_name = c.table_name AND k.column_name = c.column_name) THEN 'YES' ELSE 'NO' END AS is_primary_key FROM information_schema.columns c WHERE c.table_schema = 'public' AND c.table_name = '",
            name.as_str(),
        );
        sql.append("' ORDER BY c.ordinal_position");
        sql
    }

    fn get_columns(&self, outcome: Result<RowSet, NativeError>) -> (out: Result<Vec<ColumnInfo>, String>) {
        shape_columns(DatabaseType::Postgres, outcome)
    }

    fn close(&self) {
    }
}

} // verus!
