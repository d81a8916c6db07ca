//! The rules that every driver follows, as functions of specifications, and
//! the shaping of native outcomes that the drivers share.

use vstd::prelude::*;
use crate::native::{
    cell_model, read_model, rendered_cell, write_model, NativeError, NativeValue, NativeValueModel,
    ReadModel, RowSet, RowSetModel, Stage, WriteModel, WriteOutcome,
};
use crate::text::joined;
use crate::types::{DatabaseType, ExecuteResult, QueryResult, QueryResultModel, RowModel};

verus! {

/// What a caller asked of a connection.
#[derive(Debug, Clone, Copy, PartialEq, Eq, Structural)]
pub enum Operation {
    Connect,
    Query,
    Execute,
    /// Listing tables or columns.
    Introspect,
}

/// Whether `out` is the executable form of `model`: the same branch, with
/// the same value by its view.
pub open spec fn yields<T: DeepView>(out: Result<T, String>, model: Result<T::V, Seq<char>>) -> bool {
    match model {
        Ok(value) => out is Ok && out->Ok_0.deep_view() == value,
        Err(message) => out is Err && out->Err_0@ == message,
    }
}

/// The words that precede an engine's own message when a statement of kind
/// `operation` fails at `stage`.
pub open spec fn error_prefix(engine: DatabaseType, operation: Operation, stage: Stage) -> Seq<char> {
    match operation {
        Operation::Connect => match engine {
            DatabaseType::Sqlite => "SQLite connection error: "@,
            DatabaseType::Mysql => "MySQL connection error: "@,
            DatabaseType::Postgres => match stage {
                Stage::Runtime => "Runtime error: "@,
                Stage::Config => "Config error: "@,
                _ => "Connection error: "@,
            },
        },
        Operation::Query => match engine {
            DatabaseType::Sqlite => match stage {
                Stage::Prepare => "Prepare error: "@,
                _ => "Query error: "@,
            },
            DatabaseType::Mysql => match stage {
                Stage::Checkout => "Connection pool error: "@,
                _ => "Query error: "@,
            },
            DatabaseType::Postgres => "Query error: "@,
        },
        Operation::Execute => match engine {
            DatabaseType::Mysql => match stage {
                Stage::Checkout => "Connection pool error: "@,
                _ => "Execute error: "@,
            },
            _ => "Execute error: "@,
        },
        Operation::Introspect => match engine {
            DatabaseType::Sqlite => "Error: "@,
            DatabaseType::Mysql => match stage {
                Stage::Checkout => "Connection pool error: "@,
                _ => "Query error: "@,
            },
            DatabaseType::Postgres => "Query error: "@,
        },
    }
}

/// The message that reaches the caller for a native failure.
pub open spec fn error_text(engine: DatabaseType, operation: Operation, stage: Stage, message: Seq<char>) -> Seq<char> {
    error_prefix(engine, operation, stage) + message
}

fn prefix_for(engine: DatabaseType, operation: Operation, stage: Stage) -> (prefix: &'static str)
    ensures
        prefix@ == error_prefix(engine, operation, stage),
{
    match operation {
        Operation::Connect => match engine {
            DatabaseType::Sqlite => "SQLite connection error: ",
            DatabaseType::Mysql => "MySQL connection error: ",
            DatabaseType::Postgres => match stage {
                Stage::Runtime => "Runtime error: ",
                Stage::Config => "Config error: ",
                _ => "Connection error: ",
            },
        },
        Operation::Query => match engine {
            DatabaseType::Sqlite => match stage {
                Stage::Prepare => "Prepare error: ",
                _ => "Query error: ",
            },
            DatabaseType::Mysql => match stage {
                Stage::Checkout => "Connection pool error: ",
                _ => "Query error: ",
            },
            DatabaseType::Postgres => "Query error: ",
        },
        Operation::Execute => match engine {
            DatabaseType::Mysql => match stage {
                Stage::Checkout => "Connection pool error: ",
                _ => "Execute error: ",
            },
            _ => "Execute error: ",
        },
        Operation::Introspect => match engine {
            DatabaseType::Sqlite => "Error: ",
            DatabaseType::Mysql => match stage {
                Stage::Checkout => "Connection pool error: ",
                _ => "Query error: ",
            },
            DatabaseType::Postgres => "Query error: ",
        },
    }
}

/// Puts the contextual prefix before an engine's message.
pub fn error_message(engine: DatabaseType, operation: Operation, error: &NativeError) -> (text: String)
    ensures
        text@ == error_text(engine, operation, error.stage, error.message@),
{
    joined(prefix_for(engine, operation, error.stage), error.message.as_str())
}

/// The cells of a native row, cut or filled with nulls to `width` cells.
pub open spec fn align(row: Seq<NativeValueModel>, width: nat) -> RowModel {
    Seq::new(width, |i: int| if i < row.len() { cell_model(row[i]) } else { None })
}

/// Every row of `rows`, aligned to `width` cells.
pub open spec fn aligned_rows(rows: Seq<Seq<NativeValueModel>>, width: nat) -> Seq<RowModel> {
    Seq::new(rows.len(), |r: int| align(rows[r], width))
}

/// The result of a read that an engine answered with `set`: nothing at all
/// for an empty set, else the columns as they came and each row rendered
/// and aligned to them.
pub open spec fn rows_model(set: RowSetModel, elapsed_ms: u64) -> QueryResultModel {
    if set.rows.len() == 0 {
        QueryResultModel {
            columns: Seq::empty(),
            rows: Seq::empty(),
            row_count: 0,
            execution_time_ms: elapsed_ms,
        }
    } else {
        QueryResultModel {
            columns: set.columns,
            rows: aligned_rows(set.rows, set.columns.len()),
            row_count: set.rows.len(),
            execution_time_ms: elapsed_ms,
        }
    }
}

/// What a read returns to the caller for each native outcome.
pub open spec fn query_model(
    engine: DatabaseType,
    operation: Operation,
    outcome: ReadModel,
    elapsed_ms: u64,
) -> Result<QueryResultModel, Seq<char>> {
    match outcome {
        Ok(set) => Ok(rows_model(set, elapsed_ms)),
        Err(error) => Err(error_text(engine, operation, error.stage, error.message)),
    }
}

/// The insert identifier that an engine exposes, given the number its
/// native client reports: the embedded engine always has one; one
/// client/server engine has one unless its client reports zero, which
/// stands for none; the other has no such notion.
pub open spec fn insert_id_model(engine: DatabaseType, reported: i64) -> Option<i64> {
    match engine {
        DatabaseType::Sqlite => Some(reported),
        DatabaseType::Mysql => if reported == 0 {
            None
        } else {
            Some(reported)
        },
        DatabaseType::Postgres => None,
    }
}

/// What a write returns to the caller for each native outcome.
pub open spec fn execute_model(engine: DatabaseType, outcome: WriteModel, elapsed_ms: u64) -> Result<
    ExecuteResult,
    Seq<char>,
> {
    match outcome {
        Ok(done) => Ok(
            ExecuteResult {
                rows_affected: done.rows_affected,
                last_insert_id: insert_id_model(engine, done.last_insert_id),
                execution_time_ms: elapsed_ms,
            },
        ),
        Err(error) => Err(error_text(engine, Operation::Execute, error.stage, error.message)),
    }
}

/// Renders the values of a native row and cuts or fills the row to `width`
/// cells.
pub fn aligned_row(row: &Vec<NativeValue>, width: usize) -> (out: Vec<Option<String>>)
    ensures
        out.deep_view() == align(row.deep_view(), width as nat),
{
    let mut out: Vec<Option<String>> = Vec::new();
    let mut i: usize = 0;
    while i < width
        invariant
            i <= width,
            out.len() == i,
            forall|j: int| 0 <= j < i ==> (#[trigger] out[j]).deep_view() == align(row.deep_view(), width as nat)[j],
        decreases width - i,
    {
        let cell = if i < row.len() {
            rendered_cell(&row[i])
        } else {
            None
        };
        out.push(cell);
        i += 1;
    }
    assert(out.deep_view() =~= align(row.deep_view(), width as nat));
    out
}

/// Shapes the outcome of a native read into the result that the caller
/// receives.
pub fn shape_query(
    engine: DatabaseType,
    operation: Operation,
    outcome: Result<RowSet, NativeError>,
    elapsed_ms: u64,
) -> (out: Result<QueryResult, String>)
    ensures
        yields(out, query_model(engine, operation, read_model(outcome), elapsed_ms)),
        out is Ok <==> outcome is Ok,
        out is Ok ==> out->Ok_0.well_formed(),
{
    match outcome {
        Err(error) => Err(error_message(engine, operation, &error)),
        Ok(set) => {
            let ghost model = set@;
            if set.rows.len() == 0 {
                let shaped = QueryResult {
                    columns: Vec::new(),
                    rows: Vec::new(),
                    row_count: 0,
                    execution_time_ms: elapsed_ms,
                };
                assert(shaped@.columns =~= Seq::<Seq<char>>::empty());
                assert(shaped@.rows =~= Seq::<RowModel>::empty());
                Ok(shaped)
            } else {
                let width = set.columns.len();
                let mut rows: Vec<Vec<Option<String>>> = Vec::new();
                let mut r: usize = 0;
                while r < set.rows.len()
                    invariant
                        r <= set.rows.len(),
                        rows.len() == r,
                        width == set.columns.len(),
                        forall|j: int| 0 <= j < r ==> (#[trigger] rows[j]).deep_view() == align(set.rows[j].deep_view(), width as nat),
                    decreases set.rows.len() - r,
                {
                    rows.push(aligned_row(&set.rows[r], width));
                    r += 1;
                }
                let count = rows.len();
                let shaped = QueryResult {
                    columns: set.columns,
                    rows,
                    row_count: count,
                    execution_time_ms: elapsed_ms,
                };
                assert(shaped@.rows =~= aligned_rows(model.rows, model.columns.len()));
                Ok(shaped)
            }
        },
    }
}

/// Shapes the outcome of a native write into the result that the caller
/// receives.
pub fn shape_execute(engine: DatabaseType, outcome: Result<WriteOutcome, NativeError>, elapsed_ms: u64) -> (out:
    Result<ExecuteResult, String>)
    ensures
        yields(out, execute_model(engine, write_model(outcome), elapsed_ms)),
{
    match outcome {
        Err(error) => Err(error_message(engine, Operation::Execute, &error)),
        Ok(done) => {
            let last_insert_id = match engine {
                DatabaseType::Sqlite => Some(done.last_insert_id),
                DatabaseType::Mysql => if done.last_insert_id == 0 {
                    None
                } else {
                    Some(done.last_insert_id)
                },
                DatabaseType::Postgres => None,
            };
            Ok(ExecuteResult { rows_affected: done.rows_affected, last_insert_id, execution_time_ms: elapsed_ms })
        },
    }
}

} // verus!
