//! The closed set of drivers, and the factory that makes a handle for a
//! configuration.

use vstd::prelude::*;
use crate::connection::{
    connection_request, is_handle_id, request_model, ConnectionRequest, ConnectionRequestModel,
    DatabaseConnection,
};
use crate::contract::{error_text, Operation};
use crate::mysql::MysqlConnection;
use crate::native::{NativeError, RowSet, WriteOutcome};
use crate::postgres::PostgresConnection;
use crate::sqlite::SqliteConnection;
use crate::types::{
    ColumnInfo, ConnectionConfig, ConnectionInfo, DatabaseType, ExecuteResult, QueryResult, TableInfo,
};

verus! {

/// A live connection of any engine kind.
pub enum ConnectionHandle<S> {
    Sqlite(SqliteConnection<S>),
    Postgres(PostgresConnection<S>),
    Mysql(MysqlConnection<S>),
}

impl<S> ConnectionHandle<S> {
    /// The native session that the handle owns.
    pub open spec fn session(&self) -> S {
        match self {
            ConnectionHandle::Sqlite(driver) => driver.session(),
            ConnectionHandle::Postgres(driver) => driver.session(),
            ConnectionHandle::Mysql(driver) => driver.session(),
        }
    }

    /// Whether the handle is one that the factory makes for `request` and
    /// `session`: of the requested engine, named after the request, owning
    /// the session, and with a generated identifier.
    pub open spec fn is_made_for(&self, request: ConnectionRequestModel, session: S) -> bool {
        &&& self.engine() == request.engine()
        &&& self.label() == request.label()
        &&& self.namespace() == request.namespace()
        &&& self.session() == session
        &&& is_handle_id(self.ident())
    }

    /// The native session, for the adapter to run a statement on.
    pub fn native(&self) -> (session: &S)
        ensures
            *session == self.session(),
    {
        match self {
            ConnectionHandle::Sqlite(driver) => driver.conn(),
            ConnectionHandle::Postgres(driver) => driver.client(),
            ConnectionHandle::Mysql(driver) => driver.pool(),
        }
    }

    /// The engine kind of the handle.
    pub fn db_type(&self) -> (engine: DatabaseType)
        ensures
            engine == self.engine(),
    {
        match self {
            ConnectionHandle::Sqlite(_) => DatabaseType::Sqlite,
            ConnectionHandle::Postgres(_) => DatabaseType::Postgres,
            ConnectionHandle::Mysql(_) => DatabaseType::Mysql,
        }
    }
}

impl<S> DatabaseConnection for ConnectionHandle<S> {
    open spec fn engine(&self) -> DatabaseType {
        match self {
            ConnectionHandle::Sqlite(driver) => driver.engine(),
            ConnectionHandle::Postgres(driver) => driver.engine(),
            ConnectionHandle::Mysql(driver) => driver.engine(),
        }
    }

    open spec fn ident(&self) -> Seq<char> {
        match self {
            ConnectionHandle::Sqlite(driver) => driver.ident(),
            ConnectionHandle::Postgres(driver) => driver.ident(),
            ConnectionHandle::Mysql(driver) => driver.ident(),
        }
    }

    open spec fn label(&self) -> Seq<char> {
        match self {
            ConnectionHandle::Sqlite(driver) => driver.label(),
            ConnectionHandle::Postgres(driver) => driver.label(),
            ConnectionHandle::Mysql(driver) => driver.label(),
        }
    }

    open spec fn namespace(&self) -> Option<Seq<char>> {
        match self {
            ConnectionHandle::Sqlite(driver) => driver.namespace(),
            ConnectionHandle::Postgres(driver) => driver.namespace(),
            ConnectionHandle::Mysql(driver) => driver.namespace(),
        }
    }

    fn info(&self) -> (out: ConnectionInfo) {
        match self {
            ConnectionHandle::Sqlite(driver) => driver.info(),
            ConnectionHandle::Postgres(driver) => driver.info(),
            ConnectionHandle::Mysql(driver) => driver.info(),
        }
    }

    fn query(&self, outcome: Result<RowSet, NativeError>, elapsed_ms: u64) -> (out: Result<QueryResult, String>) {
        match self {
            ConnectionHandle::Sqlite(driver) => driver.query(outcome, elapsed_ms),
            ConnectionHandle::Postgres(driver) => driver.query(outcome, elapsed_ms),
            ConnectionHandle::Mysql(driver) => driver.query(outcome, elapsed_ms),
        }
    }

    fn execute(&self, outcome: Result<WriteOutcome, NativeError>, elapsed_ms: u64) -> (out: Result<
        ExecuteResult,
        String,
    >) {
        match self {
            ConnectionHandle::Sqlite(driver) => driver.execute(outcome, elapsed_ms),
            ConnectionHandle::Postgres(driver) => driver.execute(outcome, elapsed_ms),
            ConnectionHandle::Mysql(driver) => driver.execute(outcome, elapsed_ms),
        }
    }

    fn tables_statement(&self) -> (sql: String) {
        match self {
            ConnectionHandle::Sqlite(driver) => driver.tables_statement(),
            ConnectionHandle::Postgres(driver) => driver.tables_statement(),
            ConnectionHandle::Mysql(driver) => driver.tables_statement(),
        }
    }

    fn get_tables(&self, outcome: Result<RowSet, NativeError>) -> (out: Result<Vec<TableInfo>, String>) {
        match self {
            ConnectionHandle::Sqlite(driver) => driver.get_tables(outcome),
            ConnectionHandle::Postgres(driver) => driver.get_tables(outcome),
            ConnectionHandle::Mysql(driver) => driver.get_tables(outcome),
        }
    }

    fn columns_statement(&self, table: &str) -> (sql: String) {
        match self {
            ConnectionHandle::Sqlite(driver) => driver.columns_statement(table),
            ConnectionHandle::Postgres(driver) => driver.columns_statement(table),
            ConnectionHandle::Mysql(driver) => driver.columns_statement(table),
        }
    }

    fn get_columns(&self, outcome: Result<RowSet, NativeError>) -> (out: Result<Vec<ColumnInfo>, String>) {
        match self {
            ConnectionHandle::Sqlite(driver) => driver.get_columns(outcome),
            ConnectionHandle::Postgres(driver) => driver.get_columns(outcome),
            ConnectionHandle::Mysql(driver) => driver.get_columns(outcome),
        }
    }

    fn close(&self) {
        match self {
            ConnectionHandle::Sqlite(driver) => driver.close(),
            ConnectionHandle::Postgres(driver) => driver.close(),
            ConnectionHandle::Mysql(driver) => driver.close(),
        }
    }
}

/// What the factory returns for a configuration and the outcome of the
/// native open: the configuration error if a required field is missing,
/// whatever was opened; else the connection error if the open failed; else
/// a handle made for the request and the session.
pub open spec fn creation_matches<S>(
    config: crate::types::ConnectionConfigModel,
    opened: Result<S, NativeError>,
    out: Result<ConnectionHandle<S>, String>,
) -> bool {
    match request_model(config) {
        Err(message) => out is Err && out->Err_0@ == message,
        Ok(request) => match opened {
            Err(error) => {
                &&& out is Err
                &&& out->Err_0@ == error_text(config.db_type, Operation::Connect, error.stage, error.message@)
            },
            Ok(session) => out is Ok && out->Ok_0.is_made_for(request, session),
        },
    }
}

/// Validates a configuration against its engine kind and makes the
/// matching driver around the session that the adapter opened for it.
pub fn create_connection<S>(config: &ConnectionConfig, opened: Result<S, NativeError>) -> (out: Result<
    ConnectionHandle<S>,
    String,
>)
    ensures
        creation_matches(config@, opened, out),
{
    match connection_request(config) {
        Err(message) => Err(message),
        Ok(request) => match request {
            ConnectionRequest::Sqlite { path, read_write: _, create: _ } => {
                match SqliteConnection::new(path.as_str(), opened) {
                    Ok(driver) => Ok(ConnectionHandle::Sqlite(driver)),
                    Err(message) => Err(message),
                }
            },
            ConnectionRequest::Postgres { host, port: _, database, username: _, password: _, use_ssl: _ } => {
                match PostgresConnection::new(host.as_str(), database.as_str(), opened) {
                    Ok(driver) => Ok(ConnectionHandle::Postgres(driver)),
                    Err(message) => Err(message),
                }
            },
            ConnectionRequest::Mysql { host, port: _, database, username: _, password: _ } => {
                match MysqlConnection::new(host.as_str(), database.as_str(), opened) {
                    Ok(driver) => Ok(ConnectionHandle::Mysql(driver)),
                    Err(message) => Err(message),
                }
            },
        },
    }
}

} // verus!
