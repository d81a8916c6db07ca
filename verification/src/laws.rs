//! What holds of the layer whatever the engine, the configuration or the
//! native outcome.

use vstd::prelude::*;
use crate::commands::{connect_effect, info_of, not_found_text, pool_query_model, PoolModel};
use crate::connection::{missing_required_field, request_model, ConnectionRequestModel, DatabaseConnection};
use crate::contract::{query_model, Operation};
use crate::introspect::{lemma_picked_from, sqlite_column_of_row, table_of_row, table_picker, tables_model};
use crate::native::{cell_model, NativeError, ReadModel, RowSetModel};
use crate::types::{ConnectionConfigModel, ConnectionInfo, DatabaseType, QueryResultModel, RowModel};

verus! {

/// After a connect with a configuration that has every field its engine
/// requires, and a session that opened, the snapshot of the registered
/// handle names the configured engine and says that it is connected.
pub proof fn law_connect_then_info<S>(
    before: PoolModel<S>,
    config: ConnectionConfigModel,
    session: S,
    after: PoolModel<S>,
    out: Result<ConnectionInfo, String>,
)
    requires
        !missing_required_field(config),
        connect_effect(before, config, Ok(session), after, out),
    ensures
        after.contains_key(config.id),
        info_of(after[config.id]).db_type == config.db_type,
        info_of(after[config.id]).connected,
        out is Ok,
        out->Ok_0@ == info_of(after[config.id]),
{
}

/// A configuration that lacks a field its engine requires is rejected with
/// its configuration error, and the registry gains no entry, whatever the
/// adapter opened.
pub proof fn law_missing_field_registers_nothing<S>(
    before: PoolModel<S>,
    config: ConnectionConfigModel,
    opened: Result<S, NativeError>,
    after: PoolModel<S>,
    out: Result<ConnectionInfo, String>,
)
    requires
        missing_required_field(config),
        connect_effect(before, config, opened, after, out),
    ensures
        request_model(config) is Err,
        out is Err,
        out->Err_0@ == request_model(config)->Err_0,
        after == before,
{
}

/// A configuration is rejected exactly if it lacks a required field.
pub proof fn law_request_fails_iff_field_missing(config: ConnectionConfigModel)
    ensures
        request_model(config) is Err <==> missing_required_field(config),
        request_model(config) is Ok ==> request_model(config)->Ok_0.engine() == config.db_type,
{
}

/// A read that an engine answers without rows gives no rows, no columns
/// and a count of zero, and is no error, whatever columns the engine named.
pub proof fn law_empty_result_is_empty(
    engine: DatabaseType,
    operation: Operation,
    columns: Seq<Seq<char>>,
    elapsed_ms: u64,
)
    ensures
        query_model(engine, operation, Ok(RowSetModel { columns, rows: Seq::empty() }), elapsed_ms) == Ok::<
            QueryResultModel,
            Seq<char>,
        >(
            QueryResultModel {
                columns: Seq::empty(),
                rows: Seq::empty(),
                row_count: 0,
                execution_time_ms: elapsed_ms,
            },
        ),
{
}

/// Every successful read is well formed: its count is the number of its
/// rows, and each row has as many cells as there are columns.
pub proof fn law_query_result_well_formed(
    engine: DatabaseType,
    operation: Operation,
    outcome: ReadModel,
    elapsed_ms: u64,
)
    ensures
        query_model(engine, operation, outcome, elapsed_ms) is Ok ==> query_model(
            engine,
            operation,
            outcome,
            elapsed_ms,
        )->Ok_0.well_formed(),
        query_model(engine, operation, outcome, elapsed_ms) is Ok <==> outcome is Ok,
{
}

/// A read keeps what the engine handed over: where the engine answered
/// with rows, cell `c` of row `r` of the result is the rendering of the
/// value that stood there, for every column `c`.
pub proof fn law_query_keeps_cells(
    engine: DatabaseType,
    operation: Operation,
    set: RowSetModel,
    elapsed_ms: u64,
    r: int,
    c: int,
)
    requires
        0 <= r < set.rows.len(),
        0 <= c < set.columns.len(),
        c < set.rows[r].len(),
    ensures
        query_model(engine, operation, Ok(set), elapsed_ms) is Ok,
        query_model(engine, operation, Ok(set), elapsed_ms)->Ok_0.columns == set.columns,
        query_model(engine, operation, Ok(set), elapsed_ms)->Ok_0.rows[r][c] == cell_model(set.rows[r][c]),
{
}

/// Every table of a listing carries the schema qualifier of its
/// connection and no row count, and comes from a row of the answer.
pub proof fn law_listed_tables_carry_the_qualifier(
    engine: DatabaseType,
    namespace: Option<Seq<char>>,
    outcome: ReadModel,
    i: int,
)
    requires
        tables_model(engine, namespace, outcome) is Ok,
        0 <= i < tables_model(engine, namespace, outcome)->Ok_0.len(),
    ensures
        tables_model(engine, namespace, outcome)->Ok_0[i].schema == namespace,
        tables_model(engine, namespace, outcome)->Ok_0[i].row_count is None,
{
    let rows = query_model(engine, Operation::Introspect, outcome, 0)->Ok_0.rows;
    let j = lemma_picked_from(rows, table_picker(engine, namespace), i);
    assert(table_of_row(engine, namespace, rows[j]) is Some);
}

/// The tables of a client/server connection are qualified: by the schema
/// `public` for PostgreSQL, by the connected database for MySQL. Those of
/// the embedded engine are not.
pub proof fn law_client_server_tables_are_qualified(request: ConnectionRequestModel)
    ensures
        request.engine() == DatabaseType::Sqlite ==> request.namespace() is None,
        request.engine() == DatabaseType::Postgres ==> request.namespace() == Some("public"@),
        request matches ConnectionRequestModel::Mysql { database, .. } ==> request.namespace() == Some(database),
        request.engine() != DatabaseType::Sqlite ==> request.namespace() is Some,
{
}

/// A column of the embedded engine is a member of the primary key exactly
/// if its key position is not `0`: every member of a composite key is one.
pub proof fn law_every_key_position_is_membership(row: RowModel)
    requires
        sqlite_column_of_row(row) is Some,
    ensures
        row[5] is Some,
        sqlite_column_of_row(row)->Some_0.primary_key <==> row[5]->Some_0 != "0"@,
{
}

/// After a disconnect of an identifier, a query on that identifier fails
/// with the lookup error, whatever stood in the registry before.
pub proof fn law_query_after_disconnect_is_not_found<S>(
    pool: PoolModel<S>,
    conn_id: Seq<char>,
    outcome: ReadModel,
    elapsed_ms: u64,
)
    ensures
        pool_query_model(pool.remove(conn_id), conn_id, outcome, elapsed_ms) == Err::<QueryResultModel, Seq<char>>(
            not_found_text(),
        ),
{
}

/// A disconnect of an identifier that is not registered leaves the
/// registry as it was, and one of a registered identifier leaves every
/// other connection in place.
pub proof fn law_disconnect_touches_one_entry<S>(pool: PoolModel<S>, conn_id: Seq<char>, other: Seq<char>)
    ensures
        !pool.contains_key(conn_id) ==> pool.remove(conn_id) == pool,
        other != conn_id ==> pool.remove(conn_id).contains_key(other) == pool.contains_key(other),
        other != conn_id && pool.contains_key(other) ==> pool.remove(conn_id)[other] == pool[other],
{
    if !pool.contains_key(conn_id) {
        assert(pool.remove(conn_id) =~= pool);
    }
}

/// A failed query or execute does not touch the registry: the operations
/// take it by shared reference. A connect under an identifier replaces
/// what stood there and leaves every other connection in place.
pub proof fn law_connect_touches_one_entry<S>(
    before: PoolModel<S>,
    config: ConnectionConfigModel,
    opened: Result<S, NativeError>,
    after: PoolModel<S>,
    out: Result<ConnectionInfo, String>,
    other: Seq<char>,
)
    requires
        connect_effect(before, config, opened, after, out),
        other != config.id,
    ensures
        after.contains_key(other) == before.contains_key(other),
        before.contains_key(other) ==> after[other] == before[other],
{
}

} // verus!
