use unidb::connection::DatabaseConnection;
use unidb::introspect::{column_from_row, shape_columns, shape_tables, table_from_row};
use unidb::mysql::{column_from_folded, MysqlConnection};
use unidb::native::{NativeError, NativeValue, RowSet, Stage};
use unidb::postgres::PostgresConnection;
use unidb::sqlite::SqliteConnection;
use unidb::text::doubled_text;
use unidb::types::DatabaseType;

fn text(s: &str) -> NativeValue {
    NativeValue::Text(s.to_string())
}

fn cell(s: &str) -> Option<String> {
    Some(s.to_string())
}

fn names(columns: &[&str]) -> Vec<String> {
    columns.iter().map(|c| c.to_string()).collect()
}

const PG_COLUMNS_HEAD: &str = "SELECT c.column_name, c.data_type, c.is_nullable, c.column_default, CASE WHEN EXISTS (SELECT 1 FROM information_schema.table_constraints tc JOIN information_schema.key_column_usage k ON k.constraint_schema = tc.constraint_schema AND k.constraint_name = tc.constraint_name AND k.table_schema = tc.table_schema AND k.table_name = tc.table_name WHERE tc.constraint_type = 'PRIMARY KEY' AND tc.table_schema = c.table_schema AND tc.table_name = c.table_name AND k.column_name = c.column_name) THEN 'YES' ELSE 'NO' END AS is_primary_key FROM information_schema.columns c WHERE c.table_schema = 'public' AND c.table_name = '";

#[test]
fn table_listing_statements() {
    let sqlite = SqliteConnection::new("a.db", Ok(())).unwrap();
    let postgres = PostgresConnection::new("h", "d", Ok(())).unwrap();
    let mysql = MysqlConnection::new("h", "d", Ok(())).unwrap();
    assert_eq!(
        sqlite.tables_statement(),
        "SELECT name FROM sqlite_master WHERE type='table' AND name NOT LIKE 'sqlite\\_%' ESCAPE '\\' ORDER BY name"
    );
    assert_eq!(
        postgres.tables_statement(),
        "SELECT table_name FROM information_schema.tables WHERE table_schema = 'public' AND table_type = 'BASE TABLE' ORDER BY table_name"
    );
    assert_eq!(
        mysql.tables_statement(),
        "SELECT table_name FROM information_schema.tables WHERE table_schema = DATABASE() AND table_type = 'BASE TABLE' ORDER BY table_name"
    );
}

#[test]
fn column_description_statements() {
    let sqlite = SqliteConnection::new("a.db", Ok(())).unwrap();
    let postgres = PostgresConnection::new("h", "d", Ok(())).unwrap();
    let mysql = MysqlConnection::new("h", "d", Ok(())).unwrap();
    assert_eq!(sqlite.columns_statement("cards"), "PRAGMA table_info(\"cards\")");
    assert_eq!(
        postgres.columns_statement("cards"),
        format!("{}cards' ORDER BY c.ordinal_position", PG_COLUMNS_HEAD)
    );
    assert_eq!(mysql.columns_statement("cards"), "DESCRIBE `cards`");
}

#[test]
fn table_name_is_quoted_in_the_statement() {
    let sqlite = SqliteConnection::new("a.db", Ok(())).unwrap();
    let postgres = PostgresConnection::new("h", "d", Ok(())).unwrap();
    let mysql = MysqlConnection::new("h", "d", Ok(())).unwrap();
    assert_eq!(sqlite.columns_statement(""), "PRAGMA table_info(\"\")");
    assert_eq!(sqlite.columns_statement("my table"), "PRAGMA table_info(\"my table\")");
    assert_eq!(sqlite.columns_statement("a\"b"), "PRAGMA table_info(\"a\"\"b\")");
    assert_eq!(sqlite.columns_statement("a'b`c"), "PRAGMA table_info(\"a'b`c\")");
    assert_eq!(mysql.columns_statement("a`b"), "DESCRIBE `a``b`");
    assert_eq!(mysql.columns_statement("a'b\"c"), "DESCRIBE `a'b\"c`");
    assert_eq!(mysql.columns_statement("``"), "DESCRIBE ``````");
    assert_eq!(
        postgres.columns_statement("o'brien"),
        format!("{}o''brien' ORDER BY c.ordinal_position", PG_COLUMNS_HEAD)
    );
    assert_eq!(
        postgres.columns_statement("x'; DROP TABLE t; --"),
        format!("{}x''; DROP TABLE t; --' ORDER BY c.ordinal_position", PG_COLUMNS_HEAD)
    );
}

#[test]
fn doubling_writes_each_mark_twice() {
    assert_eq!(doubled_text("", '"'), "");
    assert_eq!(doubled_text("abc", '"'), "abc");
    assert_eq!(doubled_text("\"", '"'), "\"\"");
    assert_eq!(doubled_text("a\"b\"", '"'), "a\"\"b\"\"");
    assert_eq!(doubled_text("''", '\''), "''''");
    assert_eq!(doubled_text("héllo wörld", 'ö'), "héllo wöörld");
    assert_eq!(doubled_text("a`b", '\''), "a`b");
}

#[test]
fn sqlite_tables_have_no_schema() {
    let set = RowSet { columns: names(&["name"]), rows: vec![vec![text("boards")], vec![text("cards")]] };
    let tables = shape_tables(DatabaseType::Sqlite, &None, Ok(set)).unwrap();
    assert_eq!(tables.len(), 2);
    assert_eq!(tables[0].name, "boards");
    assert_eq!(tables[0].schema, None);
    assert_eq!(tables[0].row_count, None);
    assert_eq!(tables[1].name, "cards");
    assert_eq!(tables[1].schema, None);
    assert_eq!(tables[1].row_count, None);
}

#[test]
fn sqlite_passes_over_a_null_table_name() {
    let set = RowSet {
        columns: names(&["name"]),
        rows: vec![vec![text("a")], vec![NativeValue::Null], vec![NativeValue::Opaque], vec![text("b")]],
    };
    let tables = shape_tables(DatabaseType::Sqlite, &None, Ok(set)).unwrap();
    assert_eq!(tables.len(), 2);
    assert_eq!(tables[0].name, "a");
    assert_eq!(tables[1].name, "b");
}

#[test]
fn postgres_tables_are_in_the_public_schema() {
    let postgres = PostgresConnection::new("h", "shop", Ok(())).unwrap();
    let set = RowSet { columns: names(&["table_name"]), rows: vec![vec![text("t")], vec![NativeValue::Null]] };
    let tables = postgres.get_tables(Ok(set)).unwrap();
    assert_eq!(tables.len(), 2);
    assert_eq!(tables[0].name, "t");
    assert_eq!(tables[0].schema, cell("public"));
    assert_eq!(tables[0].row_count, None);
    assert_eq!(tables[1].name, "");
    assert_eq!(tables[1].schema, cell("public"));
}

#[test]
fn mysql_tables_are_qualified_by_the_database() {
    let mysql = MysqlConnection::new("db.example", "shop", Ok(())).unwrap();
    let set = RowSet { columns: names(&["TABLE_NAME"]), rows: vec![vec![text("t")], vec![NativeValue::Null]] };
    let tables = mysql.get_tables(Ok(set)).unwrap();
    assert_eq!(tables.len(), 2);
    assert_eq!(tables[0].name, "t");
    assert_eq!(tables[0].schema, cell("shop"));
    assert_eq!(tables[0].row_count, None);
    assert_eq!(tables[1].name, "");
    assert_eq!(tables[1].schema, cell("shop"));
    let other = MysqlConnection::new("db.example", "", Ok(())).unwrap();
    let set = RowSet { columns: names(&["TABLE_NAME"]), rows: vec![vec![text("t")]] };
    assert_eq!(other.get_tables(Ok(set)).unwrap()[0].schema, cell(""));
}

#[test]
fn tables_carry_the_given_qualifier() {
    for engine in [DatabaseType::Sqlite, DatabaseType::Postgres, DatabaseType::Mysql] {
        let row = vec![cell("t")];
        assert_eq!(table_from_row(engine, &None, &row).unwrap().schema, None);
        assert_eq!(table_from_row(engine, &cell("s"), &row).unwrap().schema, cell("s"));
        assert_eq!(table_from_row(engine, &cell("s"), &row).unwrap().name, "t");
        assert_eq!(table_from_row(engine, &cell("s"), &row).unwrap().row_count, None);
    }
}

#[test]
fn no_tables_is_an_empty_list() {
    for engine in [DatabaseType::Sqlite, DatabaseType::Postgres, DatabaseType::Mysql] {
        let set = RowSet { columns: names(&["name"]), rows: vec![] };
        assert!(shape_tables(engine, &None, Ok(set)).unwrap().is_empty());
    }
}

#[test]
fn rows_without_cells_name_no_table() {
    for engine in [DatabaseType::Sqlite, DatabaseType::Postgres, DatabaseType::Mysql] {
        assert!(table_from_row(engine, &None, &vec![]).is_none());
        let set = RowSet { columns: vec![], rows: vec![vec![text("t")]] };
        assert!(shape_tables(engine, &None, Ok(set)).unwrap().is_empty());
    }
}

#[test]
fn failed_listing_reports_the_engine_message() {
    let error = |stage| NativeError { stage, message: "boom".to_string() };
    assert_eq!(shape_tables(DatabaseType::Sqlite, &None, Err(error(Stage::Prepare))).unwrap_err(), "Error: boom");
    assert_eq!(
        shape_tables(DatabaseType::Postgres, &None, Err(error(Stage::Run))).unwrap_err(),
        "Query error: boom"
    );
    assert_eq!(
        shape_tables(DatabaseType::Mysql, &None, Err(error(Stage::Checkout))).unwrap_err(),
        "Connection pool error: boom"
    );
    assert_eq!(shape_columns(DatabaseType::Sqlite, Err(error(Stage::Run))).unwrap_err(), "Error: boom");
    assert_eq!(shape_columns(DatabaseType::Postgres, Err(error(Stage::Run))).unwrap_err(), "Query error: boom");
    assert_eq!(shape_columns(DatabaseType::Mysql, Err(error(Stage::Run))).unwrap_err(), "Query error: boom");
}

#[test]
fn sqlite_columns_from_table_info() {
    let set = RowSet {
        columns: names(&["cid", "name", "type", "notnull", "dflt_value", "pk"]),
        rows: vec![
            vec![
                NativeValue::Integer(0),
                text("id"),
                text("INTEGER"),
                NativeValue::Integer(0),
                NativeValue::Null,
                NativeValue::Integer(1),
            ],
            vec![
                NativeValue::Integer(1),
                text("title"),
                text("TEXT"),
                NativeValue::Integer(1),
                text("''"),
                NativeValue::Integer(0),
            ],
            vec![
                NativeValue::Integer(2),
                text("part"),
                text(""),
                NativeValue::Integer(0),
                NativeValue::Null,
                NativeValue::Integer(2),
            ],
        ],
    };
    let columns = shape_columns(DatabaseType::Sqlite, Ok(set)).unwrap();
    assert_eq!(columns.len(), 3);
    assert_eq!(columns[0].name, "id");
    assert_eq!(columns[0].data_type, "INTEGER");
    assert!(columns[0].nullable);
    assert_eq!(columns[0].default, None);
    assert!(columns[0].primary_key);
    assert_eq!(columns[1].name, "title");
    assert_eq!(columns[1].data_type, "TEXT");
    assert!(!columns[1].nullable);
    assert_eq!(columns[1].default, cell("''"));
    assert!(!columns[1].primary_key);
    assert_eq!(columns[2].name, "part");
    assert_eq!(columns[2].data_type, "");
    assert!(columns[2].nullable);
    assert!(columns[2].primary_key);
}

#[test]
fn sqlite_every_key_position_but_zero_is_a_member() {
    let row = |position: &str| vec![cell("0"), cell("a"), cell("TEXT"), cell("0"), None, cell(position)];
    assert!(!column_from_row(DatabaseType::Sqlite, &row("0")).unwrap().primary_key);
    for position in ["1", "2", "3", "10", "17"] {
        assert!(column_from_row(DatabaseType::Sqlite, &row(position)).unwrap().primary_key);
    }
}

#[test]
fn sqlite_passes_over_incomplete_descriptions() {
    let full = vec![cell("0"), cell("id"), cell("INTEGER"), cell("0"), None, cell("1")];
    assert!(column_from_row(DatabaseType::Sqlite, &full).is_some());
    for missing in [1usize, 2, 3, 5] {
        let mut row = full.clone();
        row[missing] = None;
        assert!(column_from_row(DatabaseType::Sqlite, &row).is_none());
    }
    let mut no_cid = full.clone();
    no_cid[0] = None;
    assert!(column_from_row(DatabaseType::Sqlite, &no_cid).is_some());
    let short: Vec<Option<String>> = full[..5].to_vec();
    assert!(column_from_row(DatabaseType::Sqlite, &short).is_none());
    assert!(column_from_row(DatabaseType::Sqlite, &vec![]).is_none());
}

#[test]
fn unknown_sqlite_table_has_no_columns() {
    let set = RowSet { columns: names(&["cid", "name", "type", "notnull", "dflt_value", "pk"]), rows: vec![] };
    assert!(shape_columns(DatabaseType::Sqlite, Ok(set)).unwrap().is_empty());
}

#[test]
fn postgres_columns_from_information_schema() {
    let set = RowSet {
        columns: names(&["column_name", "data_type", "is_nullable", "column_default", "is_primary_key"]),
        rows: vec![
            vec![text("id"), text("integer"), text("NO"), text("nextval('t_id_seq'::regclass)"), text("YES")],
            vec![text("note"), text("text"), text("YES"), NativeValue::Null, text("NO")],
            vec![NativeValue::Null, NativeValue::Null, text("yes"), NativeValue::Null, NativeValue::Null],
        ],
    };
    let columns = shape_columns(DatabaseType::Postgres, Ok(set)).unwrap();
    assert_eq!(columns.len(), 3);
    assert_eq!(columns[0].name, "id");
    assert_eq!(columns[0].data_type, "integer");
    assert!(!columns[0].nullable);
    assert_eq!(columns[0].default, cell("nextval('t_id_seq'::regclass)"));
    assert!(columns[0].primary_key);
    assert_eq!(columns[1].name, "note");
    assert_eq!(columns[1].data_type, "text");
    assert!(columns[1].nullable);
    assert_eq!(columns[1].default, None);
    assert!(!columns[1].primary_key);
    assert_eq!(columns[2].name, "");
    assert_eq!(columns[2].data_type, "");
    assert!(!columns[2].nullable);
    assert!(!columns[2].primary_key);
}

#[test]
fn postgres_rows_need_three_cells() {
    assert!(column_from_row(DatabaseType::Postgres, &vec![cell("a"), cell("b")]).is_none());
    let three = column_from_row(DatabaseType::Postgres, &vec![cell("a"), cell("b"), cell("YES")]).unwrap();
    assert_eq!(three.name, "a");
    assert_eq!(three.data_type, "b");
    assert!(three.nullable);
    assert_eq!(three.default, None);
    assert!(!three.primary_key);
    let four =
        column_from_row(DatabaseType::Postgres, &vec![cell("a"), cell("b"), cell("NO"), cell("YES")]).unwrap();
    assert_eq!(four.default, cell("YES"));
    assert!(!four.primary_key);
    let five = column_from_row(
        DatabaseType::Postgres,
        &vec![cell("a"), cell("b"), cell("NO"), None, cell("YES")],
    )
    .unwrap();
    assert!(five.primary_key);
    let lower = column_from_row(
        DatabaseType::Postgres,
        &vec![cell("a"), cell("b"), cell("NO"), None, cell("yes")],
    )
    .unwrap();
    assert!(!lower.primary_key);
}

#[test]
fn mysql_columns_from_describe() {
    let set = RowSet {
        columns: names(&["Field", "Type", "Null", "Key", "Default", "Extra"]),
        rows: vec![
            vec![text("id"), text("int"), text("NO"), text("PRI"), NativeValue::Null, text("auto_increment")],
            vec![text("note"), text("varchar(20)"), text("YES"), text(""), text("none"), text("")],
            vec![text("code"), text("char(2)"), text("NO"), text("UNI"), NativeValue::Null, text("")],
            vec![text("part"), text("int"), text("NO"), text("PRI"), NativeValue::Null, text("")],
        ],
    };
    let columns = shape_columns(DatabaseType::Mysql, Ok(set)).unwrap();
    assert_eq!(columns.len(), 4);
    assert_eq!(columns[0].name, "id");
    assert_eq!(columns[0].data_type, "int");
    assert!(!columns[0].nullable);
    assert_eq!(columns[0].default, None);
    assert!(columns[0].primary_key);
    assert_eq!(columns[1].name, "note");
    assert_eq!(columns[1].data_type, "varchar(20)");
    assert!(columns[1].nullable);
    assert_eq!(columns[1].default, cell("none"));
    assert!(!columns[1].primary_key);
    assert_eq!(columns[2].name, "code");
    assert!(!columns[2].nullable);
    assert!(!columns[2].primary_key);
    assert!(columns[3].primary_key);
}

#[test]
fn mysql_reads_nullability_and_key_without_regard_to_case() {
    let upper = column_from_row(DatabaseType::Mysql, &vec![cell("a"), cell("int"), cell("YES"), cell("pri")]).unwrap();
    assert!(upper.nullable);
    assert!(upper.primary_key);
    let mixed = column_from_row(DatabaseType::Mysql, &vec![cell("a"), cell("int"), cell("Yes"), cell("Pri")]).unwrap();
    assert!(mixed.nullable);
    assert!(mixed.primary_key);
    let lower = column_from_row(DatabaseType::Mysql, &vec![cell("a"), cell("int"), cell("yes"), cell("PRI")]).unwrap();
    assert!(lower.nullable);
    assert!(lower.primary_key);
    let neither = column_from_row(DatabaseType::Mysql, &vec![cell("a"), cell("int"), cell("no"), cell("MUL")]).unwrap();
    assert!(!neither.nullable);
    assert!(!neither.primary_key);
    let nulls = column_from_row(DatabaseType::Mysql, &vec![None, None, None, None]).unwrap();
    assert_eq!(nulls.name, "");
    assert_eq!(nulls.data_type, "");
    assert!(!nulls.nullable);
    assert!(!nulls.primary_key);
    assert_eq!(nulls.default, None);
}

#[test]
fn mysql_rows_need_four_cells() {
    assert!(column_from_row(DatabaseType::Mysql, &vec![cell("a"), cell("b"), cell("YES")]).is_none());
    let four = column_from_row(DatabaseType::Mysql, &vec![cell("a"), cell("b"), cell("YES"), cell("PRI")]).unwrap();
    assert_eq!(four.default, None);
    let five =
        column_from_row(DatabaseType::Mysql, &vec![cell("a"), cell("b"), cell("YES"), cell("PRI"), cell("7")]).unwrap();
    assert_eq!(five.default, cell("7"));
}

#[test]
fn folded_texts_decide_nullability_and_key() {
    let c = column_from_folded("a".to_string(), "int".to_string(), "yes", cell("1"), "PRI");
    assert_eq!(c.name, "a");
    assert_eq!(c.data_type, "int");
    assert!(c.nullable);
    assert_eq!(c.default, cell("1"));
    assert!(c.primary_key);
    let d = column_from_folded("a".to_string(), "int".to_string(), "YES", None, "pri");
    assert!(!d.nullable);
    assert!(!d.primary_key);
    assert_eq!(d.default, None);
}

#[test]
fn drivers_describe_by_their_own_engine() {
    let sqlite = SqliteConnection::new("a.db", Ok(())).unwrap();
    let postgres = PostgresConnection::new("h", "d", Ok(())).unwrap();
    let mysql = MysqlConnection::new("h", "d", Ok(())).unwrap();
    let listing = || RowSet { columns: names(&["name"]), rows: vec![vec![text("t")]] };
    assert_eq!(sqlite.get_tables(Ok(listing())).unwrap()[0].schema, None);
    assert_eq!(postgres.get_tables(Ok(listing())).unwrap()[0].schema, cell("public"));
    assert_eq!(mysql.get_tables(Ok(listing())).unwrap()[0].schema, cell("d"));
    let described = || RowSet {
        columns: names(&["a", "b", "c", "d"]),
        rows: vec![vec![text("n"), text("t"), text("YES"), text("PRI")]],
    };
    assert!(sqlite.get_columns(Ok(described())).unwrap().is_empty());
    let pg = postgres.get_columns(Ok(described())).unwrap();
    assert_eq!(pg.len(), 1);
    assert!(pg[0].nullable);
    assert!(!pg[0].primary_key);
    assert_eq!(pg[0].default, cell("PRI"));
    let my = mysql.get_columns(Ok(described())).unwrap();
    assert_eq!(my.len(), 1);
    assert!(my[0].nullable);
    assert!(my[0].primary_key);
    assert_eq!(my[0].default, None);
}

#[test]
fn constructors_keep_the_given_identifier() {
    let sqlite = SqliteConnection::with_ident("id-1".to_string(), "a.db", 7u8);
    assert_eq!(sqlite.info().id, "id-1");
    assert_eq!(sqlite.info().name, "a.db");
    assert_eq!(*sqlite.conn(), 7);
    let postgres = PostgresConnection::with_ident("id-2".to_string(), "h", "d", 8u8);
    assert_eq!(postgres.info().id, "id-2");
    assert_eq!(postgres.info().name, "h/d");
    assert_eq!(*postgres.client(), 8);
    let mysql = MysqlConnection::with_ident("id-3".to_string(), "h", "d", 9u8);
    assert_eq!(mysql.info().id, "id-3");
    assert_eq!(mysql.info().name, "h/d");
    assert_eq!(*mysql.pool(), 9);
    let set = RowSet { columns: names(&["n"]), rows: vec![vec![text("t")]] };
    assert_eq!(mysql.get_tables(Ok(set)).unwrap()[0].schema, cell("d"));
}
