//! The driver of the client/server engine whose native client keeps a pool
//! of sessions.

use vstd::prelude::*;
use crate::connection::{fresh_handle_id, is_handle_id, DatabaseConnection};
use crate::contract::{error_message, error_text, shape_execute, shape_query, Operation};
use crate::introspect::{mysql_column_of_row, shape_columns, shape_tables, table_of_row};
use crate::native::{NativeError, RowSet, WriteOutcome};
use crate::text::{
    cell_text_or_empty, copied_cell, doubled_text, joined, same_text, to_lowercase, to_uppercase,
};
use crate::types::{
    ColumnInfo, ColumnInfoModel, ConnectionInfo, DatabaseType, ExecuteResult, QueryResult, TableInfo,
};

verus! {

/// A live pool of sessions with a MySQL server. `S` is the native pool,
/// which the driver owns and never looks into. The driver keeps the name of
/// the database it is connected to: it qualifies the tables it lists.
pub struct MysqlConnection<S> {
    id: String,
    name: String,
    database: String,
    pool: S,
}

impl<S> MysqlConnection<S> {
    /// The native pool that the driver owns.
    pub closed spec fn session(&self) -> S {
        self.pool
    }

    /// The handle with the given identifier for an open pool: host and
    /// database, with a slash between them, are its name, and the database
    /// qualifies its tables.
    pub fn with_ident(id: String, host: &str, database: &str, pool: S) -> (c: Self)
        ensures
            c.ident() == id@,
            c.label() == host@ + "/"@ + database@,
            c.namespace() == Some(database@),
            c.session() == pool,
    {
        let mut name = joined(host, "/");
        name.append(database);
        MysqlConnection { id, name, database: String::from_str(database), pool }
    }

    /// Makes the handle for a pool that the adapter tried to open. The
    /// handle gets a fresh random identifier, and host and database as its
    /// name; a failure is reported with the engine's message.
    pub fn new(host: &str, database: &str, opened: Result<S, NativeError>) -> (out: Result<Self, String>)
        ensures
            match opened {
                Ok(pool) => {
                    &&& out is Ok
                    &&& out->Ok_0.session() == pool
                    &&& out->Ok_0.label() == host@ + "/"@ + database@
                    &&& out->Ok_0.namespace() == Some(database@)
                    &&& is_handle_id(out->Ok_0.ident())
                },
                Err(error) => {
                    &&& out is Err
                    &&& out->Err_0@ == error_text(
                        DatabaseType::Mysql,
                        Operation::Connect,
                        error.stage,
                        error.message@,
                    )
                },
            },
    {
        match opened {
            Ok(pool) => Ok(Self::with_ident(fresh_handle_id(), host, database, pool)),
            Err(error) => Err(error_message(DatabaseType::Mysql, Operation::Connect, &error)),
        }
    }

    /// The native pool, for the adapter to check a session out of.
    pub fn pool(&self) -> (pool: &S)
        ensures
            *pool == self.session(),
    {
        &self.pool
    }
}

/// The table that a row of the listing names.
pub fn table_from_row(namespace: &Option<String>, row: &Vec<Option<String>>) -> (out: Option<TableInfo>)
    ensures
        out.deep_view() == table_of_row(DatabaseType::Mysql, namespace.deep_view(), row.deep_view()),
{
    if row.len() == 0 {
        return None;
    }
    Some(TableInfo { name: cell_text_or_empty(&row[0]), schema: copied_cell(namespace), row_count: None })
}

/// The column that a description names, given its nullability in lower
/// case and its key in upper case: it is nullable if the first reads
/// `yes`, and a member of the primary key if the second reads `PRI`.
pub fn column_from_folded(
    name: String,
    data_type: String,
    nullable_lower: &str,
    default: Option<String>,
    key_upper: &str,
) -> (out: ColumnInfo)
    ensures
        out@ == (ColumnInfoModel {
            name: name@,
            data_type: data_type@,
            nullable: nullable_lower@ == "yes"@,
            default: default.deep_view(),
            primary_key: key_upper@ == "PRI"@,
        }),
{
    ColumnInfo {
        name,
        data_type,
        nullable: same_text(nullable_lower, "yes"),
        default,
        primary_key: same_text(key_upper, "PRI"),
    }
}

/// The column that a row of `DESCRIBE` names.
pub fn column_from_row(row: &Vec<Option<String>>) -> (out: Option<ColumnInfo>)
    ensures
        out.deep_view() == mysql_column_of_row(row.deep_view()),
{
    if row.len() < 4 {
        return None;
    }
    let nullable_lower = to_lowercase(cell_text_or_empty(&row[2]).as_str());
    let key_upper = to_uppercase(cell_text_or_empty(&row[3]).as_str());
    let default = if row.len() > 4 {
        copied_cell(&row[4])
    } else {
        None
    };
    Some(
        column_from_folded(
            cell_text_or_empty(&row[0]),
            cell_text_or_empty(&row[1]),
            nullable_lower.as_str(),
            default,
            key_upper.as_str(),
        ),
    )
}

impl<S> DatabaseConnection for MysqlConnection<S> {
    open spec fn engine(&self) -> DatabaseType {
        DatabaseType::Mysql
    }

    closed spec fn ident(&self) -> Seq<char> {
        self.id@
    }

    closed spec fn label(&self) -> Seq<char> {
        self.name@
    }

    closed spec fn namespace(&self) -> Option<Seq<char>> {
        Some(self.database@)
    }

    fn info(&self) -> (out: ConnectionInfo) {
        ConnectionInfo {
            id: self.id.clone(),
            name: self.name.clone(),
            db_type: DatabaseType::Mysql,
            version: String::from_str("MySQL"),
            connected: true,
        }
    }

    fn query(&self, outcome: Result<RowSet, NativeError>, elapsed_ms: u64) -> (out: Result<QueryResult, String>) {
        shape_query(DatabaseType::Mysql, Operation::Query, outcome, elapsed_ms)
    }

    fn execute(&self, outcome: Result<WriteOutcome, NativeError>, elapsed_ms: u64) -> (out: Result<
        ExecuteResult,
        String,
    >) {
        shape_execute(DatabaseType::Mysql, outcome, elapsed_ms)
    }

    fn tables_statement(&self) -> (sql: String) {
        String::from_str(
            "SELECT table_name FROM information_schema.tables WHERE table_schema = DATABASE() AND table_type = 'BASE TABLE' ORDER BY table_name",
        )
    }

    fn get_tables(&self, outcome: Result<RowSet, NativeError>) -> (out: Result<Vec<TableInfo>, String>) {
        let namespace = Some(self.database.clone());
        shape_tables(DatabaseType::Mysql, &namespace, outcome)
    }

    fn columns_statement(&self, table: &str) -> (sql: String) {
        let name = doubled_text(table, '`');
        let mut sql = joined("DESCRIBE `", name.as_str());
        sql.append("`");
        sql
    }

    fn get_columns(&self, outcome: Result<RowSet, NativeError>) -> (out: Result<Vec<ColumnInfo>, String>) {
        shape_columns(DatabaseType::Mysql, outcome)
    }

    fn close(&self) {
    }
}

} // verus!
