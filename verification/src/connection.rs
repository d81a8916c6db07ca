//! The contract that every driver implements, and the validation of a
//! connection configuration.

use vstd::prelude::*;
use crate::contract::{execute_model, query_model, yields, Operation};
use crate::introspect::{
    columns_model, columns_statement_text, namespace_model, tables_model, tables_statement_text,
};
use crate::native::{read_model, write_model, NativeError, RowSet, WriteOutcome};
use crate::types::{
    ColumnInfo, ConnectionConfig, ConnectionConfigModel, ConnectionInfo, ConnectionInfoModel,
    DatabaseType, ExecuteResult, QueryResult, TableInfo,
};

verus! {

/// The engine version label that a snapshot carries.
pub open spec fn version_label(engine: DatabaseType) -> Seq<char> {
    match engine {
        DatabaseType::Sqlite => "3"@,
        DatabaseType::Postgres => "PostgreSQL"@,
        DatabaseType::Mysql => "MySQL"@,
    }
}

/// The snapshot of a live connection with the given identifier and name.
pub open spec fn info_model(engine: DatabaseType, ident: Seq<char>, label: Seq<char>) -> ConnectionInfoModel {
    ConnectionInfoModel { id: ident, name: label, db_type: engine, version: version_label(engine), connected: true }
}

/// The shape of a generated handle identifier: 36 characters in groups of
/// 8, 4, 4, 4 and 12 that hyphens separate, the third group starting with
/// the version digit 4.
pub open spec fn is_handle_id(text: Seq<char>) -> bool {
    &&& text.len() == 36
    &&& text[8] == '-'
    &&& text[13] == '-'
    &&& text[18] == '-'
    &&& text[23] == '-'
    &&& text[14] == '4'
}

/// Calls `uuid::Uuid::new_v4` and renders the result with its `Display`
/// impl. The identifier is random, so the contract states only the shape
/// that every such rendering has.
#[verifier::external_body]
pub(crate) fn fresh_handle_id() -> (id: String)
    ensures
        is_handle_id(id@),
{
    uuid::Uuid::new_v4().to_string()
}

/// The common contract of the drivers. A driver owns one native session
/// and never talks to it: the adapter performs each native call and hands
/// the outcome to the driver, which turns it into the result that the
/// caller receives.
pub trait DatabaseConnection {
    /// The engine that this driver speaks for.
    spec fn engine(&self) -> DatabaseType;

    /// The generated identifier of the handle.
    spec fn ident(&self) -> Seq<char>;

    /// The human-readable name of the handle.
    spec fn label(&self) -> Seq<char>;

    /// The schema qualifier of the tables that the handle lists.
    spec fn namespace(&self) -> Option<Seq<char>>;

    /// A snapshot of the handle.
    fn info(&self) -> (out: ConnectionInfo)
        ensures
            out@ == info_model(self.engine(), self.ident(), self.label()),
    ;

    /// The result of a read statement, given what the engine answered and
    /// the time that the native call took.
    fn query(&self, outcome: Result<RowSet, NativeError>, elapsed_ms: u64) -> (out: Result<QueryResult, String>)
        ensures
            yields(out, query_model(self.engine(), Operation::Query, read_model(outcome), elapsed_ms)),
            out is Ok <==> outcome is Ok,
            out is Ok ==> out->Ok_0.well_formed(),
    ;

    /// The result of a write statement, given what the engine accounted
    /// and the time that the native call took.
    fn execute(&self, outcome: Result<WriteOutcome, NativeError>, elapsed_ms: u64) -> (out: Result<
        ExecuteResult,
        String,
    >)
        ensures
            yields(out, execute_model(self.engine(), write_model(outcome), elapsed_ms)),
    ;

    /// The statement that lists this engine's base tables.
    fn tables_statement(&self) -> (sql: String)
        ensures
            sql@ == tables_statement_text(self.engine()),
    ;

    /// The tables of the database, given what the engine answered to
    /// [`Self::tables_statement`].
    fn get_tables(&self, outcome: Result<RowSet, NativeError>) -> (out: Result<Vec<TableInfo>, String>)
        ensures
            yields(out, tables_model(self.engine(), self.namespace(), read_model(outcome))),
    ;

    /// The statement that describes the columns of `table`.
    fn columns_statement(&self, table: &str) -> (sql: String)
        ensures
            sql@ == columns_statement_text(self.engine(), table@),
    ;

    /// The columns of a table, given what the engine answered to
    /// [`Self::columns_statement`].
    fn get_columns(&self, outcome: Result<RowSet, NativeError>) -> (out: Result<Vec<ColumnInfo>, String>)
        ensures
            yields(out, columns_model(self.engine(), read_model(outcome))),
    ;

    /// Marks the end of the handle's use. The native session is released
    /// when the handle is dropped.
    fn close(&self);
}

/// What the adapter is asked to open for a valid configuration.
#[derive(Debug)]
pub enum ConnectionRequest {
    /// A database file, opened for reading and writing and created if it
    /// does not exist.
    Sqlite { path: String, read_write: bool, create: bool },
    /// A session with a PostgreSQL server.
    Postgres { host: String, port: u16, database: String, username: String, password: String, use_ssl: bool },
    /// A pool of sessions with a MySQL server.
    Mysql { host: String, port: u16, database: String, username: String, password: String },
}

pub enum ConnectionRequestModel {
    Sqlite { path: Seq<char>, read_write: bool, create: bool },
    Postgres {
        host: Seq<char>,
        port: u16,
        database: Seq<char>,
        username: Seq<char>,
        password: Seq<char>,
        use_ssl: bool,
    },
    Mysql { host: Seq<char>, port: u16, database: Seq<char>, username: Seq<char>, password: Seq<char> },
}

impl View for ConnectionRequest {
    type V = ConnectionRequestModel;

    open spec fn view(&self) -> ConnectionRequestModel {
        match self {
            ConnectionRequest::Sqlite { path, read_write, create } => ConnectionRequestModel::Sqlite {
                path: path@,
                read_write: *read_write,
                create: *create,
            },
            ConnectionRequest::Postgres { host, port, database, username, password, use_ssl } => {
                ConnectionRequestModel::Postgres {
                    host: host@,
                    port: *port,
                    database: database@,
                    username: username@,
                    password: password@,
                    use_ssl: *use_ssl,
                }
            },
            ConnectionRequest::Mysql { host, port, database, username, password } => ConnectionRequestModel::Mysql {
                host: host@,
                port: *port,
                database: database@,
                username: username@,
                password: password@,
            },
        }
    }
}

impl DeepView for ConnectionRequest {
    type V = ConnectionRequestModel;

    open spec fn deep_view(&self) -> ConnectionRequestModel {
        self@
    }
}

impl ConnectionRequestModel {
    /// The engine that the request is for.
    pub open spec fn engine(self) -> DatabaseType {
        match self {
            ConnectionRequestModel::Sqlite { .. } => DatabaseType::Sqlite,
            ConnectionRequestModel::Postgres { .. } => DatabaseType::Postgres,
            ConnectionRequestModel::Mysql { .. } => DatabaseType::Mysql,
        }
    }

    /// The schema qualifier of the tables of a connection opened for the
    /// request.
    pub open spec fn namespace(self) -> Option<Seq<char>> {
        match self {
            ConnectionRequestModel::Sqlite { path, .. } => namespace_model(DatabaseType::Sqlite, path),
            ConnectionRequestModel::Postgres { database, .. } => namespace_model(DatabaseType::Postgres, database),
            ConnectionRequestModel::Mysql { database, .. } => namespace_model(DatabaseType::Mysql, database),
        }
    }

    /// The human-readable name of a connection opened for the request: the
    /// path of the file, or host and database with a slash between them.
    pub open spec fn label(self) -> Seq<char> {
        match self {
            ConnectionRequestModel::Sqlite { path, .. } => path,
            ConnectionRequestModel::Postgres { host, database, .. } => host + "/"@ + database,
            ConnectionRequestModel::Mysql { host, database, .. } => host + "/"@ + database,
        }
    }
}

/// Whether a configuration lacks a field that its engine requires: the
/// file path for the embedded engine; host, database or user name for a
/// client/server engine.
pub open spec fn missing_required_field(config: ConnectionConfigModel) -> bool {
    match config.db_type {
        DatabaseType::Sqlite => config.file_path is None,
        _ => config.host is None || config.database is None || config.username is None,
    }
}

/// The port of a request: the configured one, or the engine's standard
/// port.
pub open spec fn port_or_default(engine: DatabaseType, port: Option<u16>) -> u16 {
    match port {
        Some(p) => p,
        None => match engine.spec_default_port() {
            Some(p) => p,
            None => 0,
        },
    }
}

/// What is opened for a configuration, or the message that names the first
/// required field it lacks. The fields are asked for in the order host,
/// database, user name; a missing password is the empty password; a
/// PostgreSQL request always asks for transport security.
pub open spec fn request_model(config: ConnectionConfigModel) -> Result<ConnectionRequestModel, Seq<char>> {
    match config.db_type {
        DatabaseType::Sqlite => match config.file_path {
            Some(path) => Ok(ConnectionRequestModel::Sqlite { path, read_write: true, create: true }),
            None => Err("SQLite requires file_path"@),
        },
        DatabaseType::Postgres => if config.host is None {
            Err("PostgreSQL requires host"@)
        } else if config.database is None {
            Err("PostgreSQL requires database"@)
        } else if config.username is None {
            Err("PostgreSQL requires username"@)
        } else {
            Ok(
                ConnectionRequestModel::Postgres {
                    host: config.host->Some_0,
                    port: port_or_default(DatabaseType::Postgres, config.port),
                    database: config.database->Some_0,
                    username: config.username->Some_0,
                    password: crate::text::text_or_empty(config.password),
                    use_ssl: true,
                },
            )
        },
        DatabaseType::Mysql => if config.host is None {
            Err("MySQL requires host"@)
        } else if config.database is None {
            Err("MySQL requires database"@)
        } else if config.username is None {
            Err("MySQL requires username"@)
        } else {
            Ok(
                ConnectionRequestModel::Mysql {
                    host: config.host->Some_0,
                    port: port_or_default(DatabaseType::Mysql, config.port),
                    database: config.database->Some_0,
                    username: config.username->Some_0,
                    password: crate::text::text_or_empty(config.password),
                },
            )
        },
    }
}

fn configured_port(engine: DatabaseType, port: Option<u16>) -> (out: u16)
    ensures
        out == port_or_default(engine, port),
{
    match port {
        Some(p) => p,
        None => match engine.default_port() {
            Some(p) => p,
            None => 0,
        },
    }
}

/// Validates a configuration against its engine kind and says what is to
/// be opened for it. Nothing native has been called when this fails.
pub fn connection_request(config: &ConnectionConfig) -> (out: Result<ConnectionRequest, String>)
    ensures
        yields(out, request_model(config@)),
        out is Err <==> missing_required_field(config@),
{
    match config.db_type {
        DatabaseType::Sqlite => match &config.file_path {
            Some(path) => Ok(ConnectionRequest::Sqlite { path: path.clone(), read_write: true, create: true }),
            None => Err(String::from_str("SQLite requires file_path")),
        },
        DatabaseType::Postgres => {
            let host = match &config.host {
                Some(host) => host.clone(),
                None => { return Err(String::from_str("PostgreSQL requires host")); },
            };
            let database = match &config.database {
                Some(database) => database.clone(),
                None => { return Err(String::from_str("PostgreSQL requires database")); },
            };
            let username = match &config.username {
                Some(username) => username.clone(),
                None => { return Err(String::from_str("PostgreSQL requires username")); },
            };
            Ok(
                ConnectionRequest::Postgres {
                    host,
                    port: configured_port(DatabaseType::Postgres, config.port),
                    database,
                    username,
                    password: crate::text::cell_text_or_empty(&config.password),
                    use_ssl: true,
                },
            )
        },
        DatabaseType::Mysql => {
            let host = match &config.host {
                Some(host) => host.clone(),
                None => { return Err(String::from_str("MySQL requires host")); },
            };
            let database = match &config.database {
                Some(database) => database.clone(),
                None => { return Err(String::from_str("MySQL requires database")); },
            };
            let username = match &config.username {
                Some(username) => username.clone(),
                None => { return Err(String::from_str("MySQL requires username")); },
            };
            Ok(
                ConnectionRequest::Mysql {
                    host,
                    port: configured_port(DatabaseType::Mysql, config.port),
                    database,
                    username,
                    password: crate::text::cell_text_or_empty(&config.password),
                },
            )
        },
    }
}

} // verus!
