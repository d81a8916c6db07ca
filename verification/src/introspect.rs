//! Schema introspection: the statement that each engine is asked, and how
//! the rows of its answer become table and column descriptors.

use vstd::prelude::*;
use crate::contract::{query_model, shape_query, yields, Operation};
use crate::native::{read_model, NativeError, ReadModel, RowSet};
use crate::text::{doubled, lowercase_of, text_or_empty, uppercase_of};
use crate::types::{ColumnInfo, ColumnInfoModel, DatabaseType, RowModel, TableInfo, TableInfoModel};

verus! {

/// The statement that lists the base tables of a database, by name. The
/// embedded engine keeps its internal tables under names that begin with
/// `sqlite_`; the underscore is escaped, so that it stands for itself.
pub open spec fn tables_statement_text(engine: DatabaseType) -> Seq<char> {
    match engine {
        DatabaseType::Sqlite => "SELECT name FROM sqlite_master WHERE type='table' AND name NOT LIKE 'sqlite\\_%' ESCAPE '\\' ORDER BY name"@,
        DatabaseType::Postgres => "SELECT table_name FROM information_schema.tables WHERE table_schema = 'public' AND table_type = 'BASE TABLE' ORDER BY table_name"@,
        DatabaseType::Mysql => "SELECT table_name FROM information_schema.tables WHERE table_schema = DATABASE() AND table_type = 'BASE TABLE' ORDER BY table_name"@,
    }
}

/// What stands before the name of the table in the statement that
/// describes the columns of a PostgreSQL table. The fifth column of the
/// answer says whether the column is a member of the primary key.
pub open spec fn postgres_columns_head() -> Seq<char> {
    "SELECT c.column_name, c.data_type, c.is_nullable, c.column_default, CASE WHEN EXISTS (SELECT 1 FROM information_schema.table_constraints tc JOIN information_schema.key_column_usage k ON k.constraint_schema = tc.constraint_schema AND k.constraint_name = tc.constraint_name AND k.table_schema = tc.table_schema AND k.table_name = tc.table_name WHERE tc.constraint_type = 'PRIMARY KEY' AND tc.table_schema = c.table_schema AND tc.table_name = c.table_name AND k.column_name = c.column_name) THEN 'YES' ELSE 'NO' END AS is_primary_key FROM information_schema.columns c WHERE c.table_schema = 'public' AND c.table_name = '"@
}

/// The statement that lists the columns of `table` in their ordinal
/// order. The name stands in the statement as a quoted name or literal,
/// with every quote character in it written twice.
pub open spec fn columns_statement_text(engine: DatabaseType, table: Seq<char>) -> Seq<char> {
    match engine {
        DatabaseType::Sqlite => "PRAGMA table_info(\""@ + doubled(table, '"') + "\")"@,
        DatabaseType::Postgres => postgres_columns_head() + doubled(table, '\'') + "' ORDER BY c.ordinal_position"@,
        DatabaseType::Mysql => "DESCRIBE `"@ + doubled(table, '`') + "`"@,
    }
}

/// The schema qualifier of the tables that a connection lists: none for
/// the embedded engine, the schema `public` for PostgreSQL, the connected
/// database for MySQL.
pub open spec fn namespace_model(engine: DatabaseType, database: Seq<char>) -> Option<Seq<char>> {
    match engine {
        DatabaseType::Sqlite => None,
        DatabaseType::Postgres => Some("public"@),
        DatabaseType::Mysql => Some(database),
    }
}

/// The values that `pick` gives for the items of a sequence, in order,
/// without the items for which it gives none.
pub open spec fn picked<A, B>(items: Seq<A>, pick: spec_fn(A) -> Option<B>) -> Seq<B> {
    items.filter(|item: A| pick(item) is Some).map_values(|item: A| pick(item)->Some_0)
}

/// Picking from a sequence with one more item appends what that item gives.
pub proof fn lemma_picked_push<A, B>(items: Seq<A>, item: A, pick: spec_fn(A) -> Option<B>)
    ensures
        picked(items.push(item), pick) == match pick(item) {
            Some(value) => picked(items, pick).push(value),
            None => picked(items, pick),
        },
{
    reveal(Seq::filter);
    let keep = |item: A| pick(item) is Some;
    let longer = items.push(item);
    assert(longer.drop_last() =~= items);
    assert(longer.last() == item);
    assert(longer.filter(keep) == if keep(item) {
        items.filter(keep).push(item)
    } else {
        items.filter(keep)
    });
    match pick(item) {
        Some(value) => {
            assert(picked(longer, pick) =~= picked(items, pick).push(value));
        },
        None => {},
    }
}

/// Picking from the first `r + 1` items appends what item `r` gives to the
/// picks from the first `r`.
pub proof fn lemma_picked_step<A, B>(items: Seq<A>, r: int, pick: spec_fn(A) -> Option<B>)
    requires
        0 <= r < items.len(),
    ensures
        picked(items.take(r + 1), pick) == match pick(items[r]) {
            Some(value) => picked(items.take(r), pick).push(value),
            None => picked(items.take(r), pick),
        },
{
    assert(items.take(r + 1) =~= items.take(r).push(items[r]));
    lemma_picked_push(items.take(r), items[r], pick);
}

/// Every pick comes from an item: for the pick at `i` there is an item
/// that gives it.
pub proof fn lemma_picked_from<A, B>(items: Seq<A>, pick: spec_fn(A) -> Option<B>, i: int) -> (j: int)
    requires
        0 <= i < picked(items, pick).len(),
    ensures
        0 <= j < items.len(),
        pick(items[j]) == Some(picked(items, pick)[i]),
    decreases items.len(),
{
    if items.len() == 0 {
        lemma_picked_empty(pick);
        0
    } else {
        let init = items.drop_last();
        lemma_picked_push(init, items.last(), pick);
        assert(init.push(items.last()) =~= items);
        if pick(items.last()) is Some && i == picked(init, pick).len() {
            items.len() - 1
        } else {
            lemma_picked_from(init, pick, i)
        }
    }
}

/// Picking from nothing gives nothing.
pub proof fn lemma_picked_empty<A, B>(pick: spec_fn(A) -> Option<B>)
    ensures
        picked(Seq::<A>::empty(), pick) == Seq::<B>::empty(),
{
    reveal(Seq::filter);
    assert(picked(Seq::<A>::empty(), pick) =~= Seq::<B>::empty());
}

/// The table that a row of the listing names, if it names one, under the
/// schema qualifier of the connection. The embedded engine passes over a
/// row whose name is null; the client/server engines read a null name as the
/// empty name.
pub open spec fn table_of_row(engine: DatabaseType, namespace: Option<Seq<char>>, row: RowModel) -> Option<
    TableInfoModel,
> {
    if row.len() == 0 {
        None
    } else {
        match engine {
            DatabaseType::Sqlite => match row[0] {
                Some(name) => Some(TableInfoModel { name, schema: namespace, row_count: None }),
                None => None,
            },
            _ => Some(TableInfoModel { name: text_or_empty(row[0]), schema: namespace, row_count: None }),
        }
    }
}

/// [`table_of_row`] as a value.
pub open spec fn table_picker(engine: DatabaseType, namespace: Option<Seq<char>>) -> spec_fn(RowModel) -> Option<
    TableInfoModel,
> {
    |row: RowModel| table_of_row(engine, namespace, row)
}

/// The column that a row of the embedded engine's table description
/// names: name, type, not-null flag, default and key position stand in the
/// cells 1 to 5. A column is a member of the primary key unless its key
/// position is 0. A row that is too short, or whose name, type or flags are
/// null, names none.
pub open spec fn sqlite_column_of_row(row: RowModel) -> Option<ColumnInfoModel> {
    if row.len() >= 6 && row[1] is Some && row[2] is Some && row[3] is Some && row[5] is Some {
        Some(
            ColumnInfoModel {
                name: row[1]->Some_0,
                data_type: row[2]->Some_0,
                nullable: row[3]->Some_0 == "0"@,
                default: row[4],
                primary_key: row[5]->Some_0 != "0"@,
            },
        )
    } else {
        None
    }
}

/// The column that a row of the information schema names: name, type,
/// nullability, default and key membership stand in the cells 0 to 4.
pub open spec fn postgres_column_of_row(row: RowModel) -> Option<ColumnInfoModel> {
    if row.len() >= 3 {
        Some(
            ColumnInfoModel {
                name: text_or_empty(row[0]),
                data_type: text_or_empty(row[1]),
                nullable: text_or_empty(row[2]) == "YES"@,
                default: if row.len() > 3 {
                    row[3]
                } else {
                    None
                },
                primary_key: row.len() > 4 && text_or_empty(row[4]) == "YES"@,
            },
        )
    } else {
        None
    }
}

/// The column that a row of `DESCRIBE` names: name, type, nullability and
/// key stand in the cells 0 to 3, the default in cell 4. Nullability and
/// key are read without regard to case.
pub open spec fn mysql_column_of_row(row: RowModel) -> Option<ColumnInfoModel> {
    if row.len() >= 4 {
        Some(
            ColumnInfoModel {
                name: text_or_empty(row[0]),
                data_type: text_or_empty(row[1]),
                nullable: lowercase_of(text_or_empty(row[2])) == "yes"@,
                default: if row.len() > 4 {
                    row[4]
                } else {
                    None
                },
                primary_key: uppercase_of(text_or_empty(row[3])) == "PRI"@,
            },
        )
    } else {
        None
    }
}

/// The column that a row of an engine's description names, if it names
/// one.
pub open spec fn column_of_row(engine: DatabaseType, row: RowModel) -> Option<ColumnInfoModel> {
    match engine {
        DatabaseType::Sqlite => sqlite_column_of_row(row),
        DatabaseType::Postgres => postgres_column_of_row(row),
        DatabaseType::Mysql => mysql_column_of_row(row),
    }
}

/// [`column_of_row`] as a value.
pub open spec fn column_picker(engine: DatabaseType) -> spec_fn(RowModel) -> Option<ColumnInfoModel> {
    |row: RowModel| column_of_row(engine, row)
}

/// The tables that a listing returns to the caller for each native
/// outcome: the rows are shaped as those of any read, and each row that
/// names a table gives one descriptor, in the order of the rows.
pub open spec fn tables_model(engine: DatabaseType, namespace: Option<Seq<char>>, outcome: ReadModel) -> Result<
    Seq<TableInfoModel>,
    Seq<char>,
> {
    match query_model(engine, Operation::Introspect, outcome, 0) {
        Ok(result) => Ok(picked(result.rows, table_picker(engine, namespace))),
        Err(message) => Err(message),
    }
}

/// The columns that a description returns to the caller for each native
/// outcome, in the order of the rows.
pub open spec fn columns_model(engine: DatabaseType, outcome: ReadModel) -> Result<Seq<ColumnInfoModel>, Seq<char>> {
    match query_model(engine, Operation::Introspect, outcome, 0) {
        Ok(result) => Ok(picked(result.rows, column_picker(engine))),
        Err(message) => Err(message),
    }
}

/// The table that a row of an engine's listing names, if it names one.
pub fn table_from_row(engine: DatabaseType, namespace: &Option<String>, row: &Vec<Option<String>>) -> (out: Option<
    TableInfo,
>)
    ensures
        out.deep_view() == table_of_row(engine, namespace.deep_view(), row.deep_view()),
{
    match engine {
        DatabaseType::Sqlite => crate::sqlite::table_from_row(namespace, row),
        DatabaseType::Postgres => crate::postgres::table_from_row(namespace, row),
        DatabaseType::Mysql => crate::mysql::table_from_row(namespace, row),
    }
}

/// The column that a row of an engine's description names, if it names
/// one.
pub fn column_from_row(engine: DatabaseType, row: &Vec<Option<String>>) -> (out: Option<ColumnInfo>)
    ensures
        out.deep_view() == column_of_row(engine, row.deep_view()),
{
    match engine {
        DatabaseType::Sqlite => crate::sqlite::column_from_row(row),
        DatabaseType::Postgres => crate::postgres::column_from_row(row),
        DatabaseType::Mysql => crate::mysql::column_from_row(row),
    }
}

/// Turns the outcome of a native read of an engine's table listing into
/// the tables that the caller receives.
pub fn shape_tables(engine: DatabaseType, namespace: &Option<String>, outcome: Result<RowSet, NativeError>) -> (out:
    Result<Vec<TableInfo>, String>)
    ensures
        yields(out, tables_model(engine, namespace.deep_view(), read_model(outcome))),
{
    match shape_query(engine, Operation::Introspect, outcome, 0) {
        Err(message) => Err(message),
        Ok(result) => {
            let ghost rows = result.rows.deep_view();
            let ghost pick = table_picker(engine, namespace.deep_view());
            let mut tables: Vec<TableInfo> = Vec::new();
            let mut r: usize = 0;
            proof {
                lemma_picked_empty(pick);
                assert(rows.take(0) =~= Seq::empty());
                assert(tables.deep_view() =~= Seq::empty());
            }
            while r < result.rows.len()
                invariant
                    r <= result.rows.len(),
                    rows == result.rows.deep_view(),
                    pick == table_picker(engine, namespace.deep_view()),
                    tables.deep_view() == picked(rows.take(r as int), pick),
                decreases result.rows.len() - r,
            {
                let ghost before = tables.deep_view();
                proof {
                    lemma_picked_step(rows, r as int, pick);
                }
                match table_from_row(engine, namespace, &result.rows[r]) {
                    Some(table) => {
                        tables.push(table);
                        assert(tables.deep_view() =~= before.push(table.deep_view()));
                    },
                    None => {},
                }
                r += 1;
            }
            assert(rows.take(r as int) =~= rows);
            Ok(tables)
        },
    }
}

/// Turns the outcome of a native read of an engine's table description
/// into the columns that the caller receives.
pub fn shape_columns(engine: DatabaseType, outcome: Result<RowSet, NativeError>) -> (out: Result<
    Vec<ColumnInfo>,
    String,
>)
    ensures
        yields(out, columns_model(engine, read_model(outcome))),
{
    match shape_query(engine, Operation::Introspect, outcome, 0) {
        Err(message) => Err(message),
        Ok(result) => {
            let ghost rows = result.rows.deep_view();
            let ghost pick = column_picker(engine);
            let mut columns: Vec<ColumnInfo> = Vec::new();
            let mut r: usize = 0;
            proof {
                lemma_picked_empty(pick);
                assert(rows.take(0) =~= Seq::empty());
                assert(columns.deep_view() =~= Seq::empty());
            }
            while r < result.rows.len()
                invariant
                    r <= result.rows.len(),
                    rows == result.rows.deep_view(),
                    pick == column_picker(engine),
                    columns.deep_view() == picked(rows.take(r as int), pick),
                decreases result.rows.len() - r,
            {
                let ghost before = columns.deep_view();
                proof {
                    lemma_picked_step(rows, r as int, pick);
                }
                match column_from_row(engine, &result.rows[r]) {
                    Some(column) => {
                        columns.push(column);
                        assert(columns.deep_view() =~= before.push(column.deep_view()));
                    },
                    None => {},
                }
                r += 1;
            }
            assert(rows.take(r as int) =~= rows);
            Ok(columns)
        },
    }
}

} // verus!
