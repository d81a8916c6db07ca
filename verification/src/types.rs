//! The engine-independent result model, and the mathematical view of each
//! of its types.

use vstd::prelude::*;

verus! {

/// A cell of a result set as a value of specifications: its text, or null.
pub type CellModel = Option<Seq<char>>;

/// A row of a result set as a value of specifications.
pub type RowModel = Seq<CellModel>;

/// The relational engine that a connection targets.
#[derive(Debug, Clone, Copy, PartialEq, Eq, Structural)]
pub enum DatabaseType {
    Sqlite,
    Postgres,
    Mysql,
}

/// What a caller supplies to open a connection. Which of the optional
/// fields are required depends on `db_type`.
#[derive(Debug, Clone)]
pub struct ConnectionConfig {
    pub id: String,
    pub name: String,
    pub db_type: DatabaseType,
    pub host: Option<String>,
    pub port: Option<u16>,
    pub database: Option<String>,
    pub username: Option<String>,
    pub password: Option<String>,
    pub file_path: Option<String>,
}

pub struct ConnectionConfigModel {
    pub id: Seq<char>,
    pub name: Seq<char>,
    pub db_type: DatabaseType,
    pub host: Option<Seq<char>>,
    pub port: Option<u16>,
    pub database: Option<Seq<char>>,
    pub username: Option<Seq<char>>,
    pub password: Option<Seq<char>>,
    pub file_path: Option<Seq<char>>,
}

impl View for ConnectionConfig {
    type V = ConnectionConfigModel;

    open spec fn view(&self) -> ConnectionConfigModel {
        ConnectionConfigModel {
            id: self.id@,
            name: self.name@,
            db_type: self.db_type,
            host: self.host.deep_view(),
            port: self.port,
            database: self.database.deep_view(),
            username: self.username.deep_view(),
            password: self.password.deep_view(),
            file_path: self.file_path.deep_view(),
        }
    }
}

/// A snapshot of a live connection.
#[derive(Debug)]
pub struct ConnectionInfo {
    pub id: String,
    pub name: String,
    pub db_type: DatabaseType,
    pub version: String,
    pub connected: bool,
}

pub struct ConnectionInfoModel {
    pub id: Seq<char>,
    pub name: Seq<char>,
    pub db_type: DatabaseType,
    pub version: Seq<char>,
    pub connected: bool,
}

impl View for ConnectionInfo {
    type V = ConnectionInfoModel;

    open spec fn view(&self) -> ConnectionInfoModel {
        ConnectionInfoModel {
            id: self.id@,
            name: self.name@,
            db_type: self.db_type,
            version: self.version@,
            connected: self.connected,
        }
    }
}

impl DeepView for ConnectionInfo {
    type V = ConnectionInfoModel;

    open spec fn deep_view(&self) -> ConnectionInfoModel {
        self@
    }
}

/// The rows that a read statement produced.
#[derive(Debug)]
pub struct QueryResult {
    pub columns: Vec<String>,
    pub rows: Vec<Vec<Option<String>>>,
    pub row_count: usize,
    pub execution_time_ms: u64,
}

pub struct QueryResultModel {
    pub columns: Seq<Seq<char>>,
    pub rows: Seq<RowModel>,
    pub row_count: nat,
    pub execution_time_ms: u64,
}

impl QueryResultModel {
    /// The count is the number of rows, and every row has one cell for each
    /// column.
    pub open spec fn well_formed(self) -> bool {
        &&& self.row_count == self.rows.len()
        &&& forall|r: int| 0 <= r < self.rows.len() ==> (#[trigger] self.rows[r]).len() == self.columns.len()
    }
}

impl View for QueryResult {
    type V = QueryResultModel;

    open spec fn view(&self) -> QueryResultModel {
        QueryResultModel {
            columns: self.columns.deep_view(),
            rows: self.rows.deep_view(),
            row_count: self.row_count as nat,
            execution_time_ms: self.execution_time_ms,
        }
    }
}

impl DeepView for QueryResult {
    type V = QueryResultModel;

    open spec fn deep_view(&self) -> QueryResultModel {
        self@
    }
}

impl QueryResult {
    /// Whether this value keeps the invariant of a query result.
    pub open spec fn well_formed(&self) -> bool {
        self@.well_formed()
    }
}

/// The outcome of a write or schema statement.
#[derive(Debug, PartialEq, Eq, Structural)]
pub struct ExecuteResult {
    pub rows_affected: u64,
    pub last_insert_id: Option<i64>,
    pub execution_time_ms: u64,
}

impl View for ExecuteResult {
    type V = ExecuteResult;

    open spec fn view(&self) -> ExecuteResult {
        *self
    }
}

impl DeepView for ExecuteResult {
    type V = ExecuteResult;

    open spec fn deep_view(&self) -> ExecuteResult {
        *self
    }
}

/// A table of the connected database.
#[derive(Debug)]
pub struct TableInfo {
    pub name: String,
    pub schema: Option<String>,
    pub row_count: Option<i64>,
}

pub struct TableInfoModel {
    pub name: Seq<char>,
    pub schema: Option<Seq<char>>,
    pub row_count: Option<i64>,
}

impl View for TableInfo {
    type V = TableInfoModel;

    open spec fn view(&self) -> TableInfoModel {
        TableInfoModel {
            name: self.name@,
            schema: self.schema.deep_view(),
            row_count: self.row_count,
        }
    }
}

impl DeepView for TableInfo {
    type V = TableInfoModel;

    open spec fn deep_view(&self) -> TableInfoModel {
        self@
    }
}

/// A column of a table.
#[derive(Debug)]
pub struct ColumnInfo {
    pub name: String,
    pub data_type: String,
    pub nullable: bool,
    pub default: Option<String>,
    pub primary_key: bool,
}

pub struct ColumnInfoModel {
    pub name: Seq<char>,
    pub data_type: Seq<char>,
    pub nullable: bool,
    pub default: Option<Seq<char>>,
    pub primary_key: bool,
}

impl View for ColumnInfo {
    type V = ColumnInfoModel;

    open spec fn view(&self) -> ColumnInfoModel {
        ColumnInfoModel {
            name: self.name@,
            data_type: self.data_type@,
            nullable: self.nullable,
            default: self.default.deep_view(),
            primary_key: self.primary_key,
        }
    }
}

impl DeepView for ColumnInfo {
    type V = ColumnInfoModel;

    open spec fn deep_view(&self) -> ColumnInfoModel {
        self@
    }
}

/// An index of a table. No driver operation produces one yet.
#[derive(Debug)]
pub struct IndexInfo {
    pub name: String,
    pub columns: Vec<String>,
    pub unique: bool,
}

pub struct IndexInfoModel {
    pub name: Seq<char>,
    pub columns: Seq<Seq<char>>,
    pub unique: bool,
}

impl View for IndexInfo {
    type V = IndexInfoModel;

    open spec fn view(&self) -> IndexInfoModel {
        IndexInfoModel {
            name: self.name@,
            columns: self.columns.deep_view(),
            unique: self.unique,
        }
    }
}

impl DatabaseType {
    /// The port on which a client/server engine listens when the
    /// configuration names none; the embedded engine has no port.
    pub open spec fn spec_default_port(self) -> Option<u16> {
        match self {
            DatabaseType::Sqlite => None,
            DatabaseType::Postgres => Some(5432u16),
            DatabaseType::Mysql => Some(3306u16),
        }
    }

    #[verifier::when_used_as_spec(spec_default_port)]
    pub fn default_port(self) -> (port: Option<u16>)
        ensures
            port == self.spec_default_port(),
    {
        match self {
            DatabaseType::Sqlite => None,
            DatabaseType::Postgres => Some(5432u16),
            DatabaseType::Mysql => Some(3306u16),
        }
    }
}

} // verus!
