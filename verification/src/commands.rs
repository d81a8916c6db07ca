//! The six operations that the surrounding application calls, each routed
//! through the registry by the caller's identifier.
//!
//! An operation on a live connection takes two steps. The adapter first
//! asks the registry for the handle ([`db_lookup`]), runs the native call on
//! the handle's session, and then hands the outcome to the operation, which
//! shapes it by the rules of the handle's engine.

use vstd::prelude::*;
use crate::connection::{info_model, request_model, DatabaseConnection};
use crate::contract::{error_text, execute_model, query_model, yields, Operation};
use crate::handle::{create_connection, ConnectionHandle};
use crate::introspect::{columns_model, tables_model};
use crate::native::{read_model, write_model, NativeError, ReadModel, RowSet, WriteModel, WriteOutcome};
use crate::pool::ConnectionPool;
use crate::types::{
    ColumnInfo, ColumnInfoModel, ConnectionConfig, ConnectionConfigModel, ConnectionInfo,
    ConnectionInfoModel, ExecuteResult, QueryResult, QueryResultModel, TableInfo, TableInfoModel,
};

verus! {

/// The registry as a value of specifications.
pub type PoolModel<S> = Map<Seq<char>, ConnectionHandle<S>>;

/// The message for an identifier under which no connection is registered.
pub open spec fn not_found_text() -> Seq<char> {
    "Connection not found"@
}

/// The snapshot that a handle gives of itself.
pub open spec fn info_of<S>(handle: ConnectionHandle<S>) -> ConnectionInfoModel {
    info_model(handle.engine(), handle.ident(), handle.label())
}

/// What `db_connect` does to the registry and returns. A configuration
/// that lacks a required field gives its configuration error and leaves the
/// registry as it was, whatever was opened; so does a failed open, with the
/// connection error. Else the registry holds, under the configuration's
/// identifier, a handle made for the request and the session, in place of
/// any handle that stood there, and the snapshot of that handle is returned.
pub open spec fn connect_effect<S>(
    before: PoolModel<S>,
    config: ConnectionConfigModel,
    opened: Result<S, NativeError>,
    after: PoolModel<S>,
    out: Result<ConnectionInfo, String>,
) -> bool {
    match request_model(config) {
        Err(message) => out is Err && out->Err_0@ == message && after == before,
        Ok(request) => match opened {
            Err(error) => {
                &&& out is Err
                &&& out->Err_0@ == error_text(config.db_type, Operation::Connect, error.stage, error.message@)
                &&& after == before
            },
            Ok(session) => {
                &&& out is Ok
                &&& after.contains_key(config.id)
                &&& after == before.insert(config.id, after[config.id])
                &&& after[config.id].is_made_for(request, session)
                &&& out->Ok_0@ == info_of(after[config.id])
            },
        },
    }
}

/// The handle that an operation on `conn_id` is routed to.
pub open spec fn lookup_model<S>(pool: PoolModel<S>, conn_id: Seq<char>) -> Result<ConnectionHandle<S>, Seq<char>> {
    if pool.contains_key(conn_id) {
        Ok(pool[conn_id])
    } else {
        Err(not_found_text())
    }
}

/// What `db_query` returns.
pub open spec fn pool_query_model<S>(pool: PoolModel<S>, conn_id: Seq<char>, outcome: ReadModel, elapsed_ms: u64) -> Result<
    QueryResultModel,
    Seq<char>,
> {
    match lookup_model(pool, conn_id) {
        Ok(handle) => query_model(handle.engine(), Operation::Query, outcome, elapsed_ms),
        Err(message) => Err(message),
    }
}

/// What `db_execute` returns.
pub open spec fn pool_execute_model<S>(
    pool: PoolModel<S>,
    conn_id: Seq<char>,
    outcome: WriteModel,
    elapsed_ms: u64,
) -> Result<ExecuteResult, Seq<char>> {
    match lookup_model(pool, conn_id) {
        Ok(handle) => execute_model(handle.engine(), outcome, elapsed_ms),
        Err(message) => Err(message),
    }
}

/// What `db_get_tables` returns.
pub open spec fn pool_tables_model<S>(pool: PoolModel<S>, conn_id: Seq<char>, outcome: ReadModel) -> Result<
    Seq<TableInfoModel>,
    Seq<char>,
> {
    match lookup_model(pool, conn_id) {
        Ok(handle) => tables_model(handle.engine(), handle.namespace(), outcome),
        Err(message) => Err(message),
    }
}

/// What `db_get_columns` returns.
pub open spec fn pool_columns_model<S>(pool: PoolModel<S>, conn_id: Seq<char>, outcome: ReadModel) -> Result<
    Seq<ColumnInfoModel>,
    Seq<char>,
> {
    match lookup_model(pool, conn_id) {
        Ok(handle) => columns_model(handle.engine(), outcome),
        Err(message) => Err(message),
    }
}

/// A registry without connections.
pub fn get_connection_pool<S>() -> (pool: ConnectionPool<S>)
    ensures
        pool@ == Map::<Seq<char>, ConnectionHandle<S>>::empty(),
{
    ConnectionPool::new()
}

/// The handle that an operation on `conn_id` is routed to, or the lookup
/// error.
pub fn db_lookup<'a, S>(pool: &'a ConnectionPool<S>, conn_id: &str) -> (out: Result<&'a ConnectionHandle<S>, String>)
    ensures
        match lookup_model(pool@, conn_id@) {
            Ok(handle) => out is Ok && *out->Ok_0 == handle,
            Err(message) => out is Err && out->Err_0@ == message,
        },
{
    match pool.get(conn_id) {
        Some(handle) => Ok(handle),
        None => Err(String::from_str("Connection not found")),
    }
}

/// Registers a connection for a configuration, given the outcome of the
/// native open that the adapter made for it. A handle already registered
/// under the same identifier is replaced and dropped.
pub fn db_connect<S>(pool: &mut ConnectionPool<S>, config: &ConnectionConfig, opened: Result<S, NativeError>) -> (out:
    Result<ConnectionInfo, String>)
    ensures
        connect_effect(old(pool)@, config@, opened, final(pool)@, out),
{
    match create_connection(config, opened) {
        Err(message) => Err(message),
        Ok(handle) => {
            let info = handle.info();
            let _ = pool.insert(config.id.clone(), handle);
            Ok(info)
        },
    }
}

/// Removes the connection registered under an identifier and releases its
/// native session. An identifier that is not registered is no error.
pub fn db_disconnect<S>(pool: &mut ConnectionPool<S>, conn_id: &str) -> (out: Result<(), String>)
    ensures
        out is Ok,
        final(pool)@ == old(pool)@.remove(conn_id@),
{
    match pool.remove(conn_id) {
        Some(handle) => {
            handle.close();
        },
        None => {},
    }
    Ok(())
}

/// The result of a read statement on the connection `conn_id`, given what
/// the engine answered and the time that the native call took.
pub fn db_query<S>(
    pool: &ConnectionPool<S>,
    conn_id: &str,
    outcome: Result<RowSet, NativeError>,
    elapsed_ms: u64,
) -> (out: Result<QueryResult, String>)
    ensures
        yields(out, pool_query_model(pool@, conn_id@, read_model(outcome), elapsed_ms)),
        out is Ok <==> pool@.contains_key(conn_id@) && outcome is Ok,
        out is Ok ==> out->Ok_0.well_formed(),
{
    match db_lookup(pool, conn_id) {
        Ok(handle) => handle.query(outcome, elapsed_ms),
        Err(message) => Err(message),
    }
}

/// The result of a write statement on the connection `conn_id`, given what
/// the engine accounted and the time that the native call took.
pub fn db_execute<S>(
    pool: &ConnectionPool<S>,
    conn_id: &str,
    outcome: Result<WriteOutcome, NativeError>,
    elapsed_ms: u64,
) -> (out: Result<ExecuteResult, String>)
    ensures
        yields(out, pool_execute_model(pool@, conn_id@, write_model(outcome), elapsed_ms)),
{
    match db_lookup(pool, conn_id) {
        Ok(handle) => handle.execute(outcome, elapsed_ms),
        Err(message) => Err(message),
    }
}

/// The tables of the database of the connection `conn_id`, given what the
/// engine answered to the handle's table listing.
pub fn db_get_tables<S>(pool: &ConnectionPool<S>, conn_id: &str, outcome: Result<RowSet, NativeError>) -> (out:
    Result<Vec<TableInfo>, String>)
    ensures
        yields(out, pool_tables_model(pool@, conn_id@, read_model(outcome))),
{
    match db_lookup(pool, conn_id) {
        Ok(handle) => handle.get_tables(outcome),
        Err(message) => Err(message),
    }
}

/// The columns of a table of the connection `conn_id`, given what the
/// engine answered to the handle's description of that table.
pub fn db_get_columns<S>(pool: &ConnectionPool<S>, conn_id: &str, outcome: Result<RowSet, NativeError>) -> (out:
    Result<Vec<ColumnInfo>, String>)
    ensures
        yields(out, pool_columns_model(pool@, conn_id@, read_model(outcome))),
{
    match db_lookup(pool, conn_id) {
        Ok(handle) => handle.get_columns(outcome),
        Err(message) => Err(message),
    }
}

} // verus!
