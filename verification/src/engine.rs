//! The one-shot executor's planning and assembly: the pagination and COUNT
//! rewrites, the per-dialect catalog queries, the composition of table
//! scans from filters and sort descriptors, and the shaping of driver rows
//! into `QueryResult` and `TableStructure` values. Driving SQL over the
//! wire happens outside; every string it sends and every decision about
//! what the answers mean is made here.
use vstd::prelude::*;

use crate::sqlbuild::{
    build_order_clause, build_where_clause, order_clause_spec, table_count_sql,
    table_count_sql_spec, table_scan_sql, table_scan_sql_spec, view_opt_str, where_clause_spec,
    wrap_count, wrap_count_spec, wrap_pagination, wrap_pagination_spec,
};
use crate::text::{contains_str, contains_sub, dec_str, push_dec_u64, str_eq};
use crate::types::{
    DatabaseType, FilterConfig, JsonScalar, QueryResult, TableColumnStructure,
    TableConstraintStructure, TableIndexStructure, TableMetadata,
};
use crate::value::{
    map_mysql_value, map_pg_spec, map_postgres_value, map_sqlite_spec, map_sqlite_value,
    map_mysql_spec, raw_wf, RawValue,
};

verus! {

/// The dialect tag the clause builders take.
pub open spec fn dialect_str(db: DatabaseType) -> Seq<char> {
    match db {
        DatabaseType::Postgres => "postgres"@,
        DatabaseType::MySql => "mysql"@,
        DatabaseType::Sqlite => "sqlite"@,
    }
}

pub fn dialect_name(db: DatabaseType) -> (r: &'static str)
    ensures
        r@ == dialect_str(db),
{
    match db {
        DatabaseType::Postgres => "postgres",
        DatabaseType::MySql => "mysql",
        DatabaseType::Sqlite => "sqlite",
    }
}

/// The one-shot executor's planning surface.
pub struct QueryEngine;

/// What one `execute_query` call will send: the possibly rewritten
/// statement, and the COUNT query to try first when a page was requested.
pub struct QueryPlan {
    pub final_sql: String,
    pub count_sql: Option<String>,
}

impl QueryEngine {
    /// Plans `execute_query`: with both page and a positive page size the
    /// statement is wrapped in a LIMIT/OFFSET subquery with offset
    /// `page * page_size`; with a page requested a COUNT rewrite is planned,
    /// empty-for-none, and its failure never fails the query.
    pub fn plan_query(sql: &str, page: Option<u32>, page_size: Option<u32>) -> (r: QueryPlan)
        requires
            (page is Some && page_size is Some && page_size.unwrap() > 0) ==> page.unwrap()
                * page_size.unwrap() <= u32::MAX,
        ensures
            r.final_sql@ == (if page is Some && page_size is Some && page_size.unwrap() > 0 {
                wrap_pagination_spec(
                    sql@,
                    page_size.unwrap() as nat,
                    (page.unwrap() * page_size.unwrap()) as nat,
                )
            } else {
                sql@
            }),
            r.count_sql is Some <==> page is Some,
            r.count_sql is Some ==> r.count_sql.unwrap()@ == wrap_count_spec(sql@),
    {
        let final_sql: String = match (page, page_size) {
            (Option::Some(p), Option::Some(ps)) => {
                if ps > 0 {
                    proof {
                        assert(p * ps <= u32::MAX);
                    }
                    wrap_pagination(sql, ps, p * ps)
                } else {
                    sql.to_owned()
                }
            },
            _ => sql.to_owned(),
        };
        let count_sql: Option<String> = match page {
            Option::Some(_) => Option::Some(wrap_count(sql)),
            Option::None => Option::None,
        };
        QueryPlan { final_sql, count_sql }
    }

    /// Assembles the result of a one-shot query from its mapped rows.
    pub fn assemble_result(
        columns: Vec<String>,
        rows: Vec<Vec<JsonScalar>>,
        execution_time_ms: u64,
        total_count: Option<u64>,
        page: Option<u32>,
        page_size: Option<u32>,
    ) -> (r: QueryResult)
        ensures
            r.columns@ == columns@,
            r.rows@ == rows@,
            r.affected_rows == 0,
            r.execution_time_ms == execution_time_ms,
            r.total_count == total_count,
            r.page == page,
            r.page_size == page_size,
    {
        QueryResult { columns, rows, affected_rows: 0, execution_time_ms, total_count, page, page_size }
    }

    /// Maps a whole Postgres result row; `names` are the lowercased column
    /// type names, in column order.
    pub fn map_postgres_row(names: &Vec<String>, row: &Vec<RawValue>) -> (r: Vec<JsonScalar>)
        requires
            names@.len() == row@.len(),
            forall|i: int| 0 <= i < row@.len() ==> raw_wf((#[trigger] row@[i])@),
        ensures
            r@.len() == row@.len(),
            forall|i: int|
                0 <= i < row@.len() ==> (#[trigger] r@[i])@ == map_pg_spec(
                    names@[i]@,
                    row@[i]@,
                ),
    {
        let n = row.len();
        let mut out: Vec<JsonScalar> = Vec::new();
        let mut i: usize = 0;
        while i < n
            invariant
                i <= n,
                n == row@.len(),
                names@.len() == row@.len(),
                forall|k: int| 0 <= k < row@.len() ==> raw_wf((#[trigger] row@[k])@),
                out@.len() == i,
                forall|k: int|
                    0 <= k < i ==> (#[trigger] out@[k])@ == map_pg_spec(names@[k]@, row@[k]@),
            decreases n - i,
        {
            out.push(map_postgres_value(names[i].as_str(), &row[i]));
            i = i + 1;
        }
        out
    }

    /// Maps a whole MySQL result row; `fulls` are the undecoded full type
    /// texts, used for the `TINYINT(1)` boolean case.
    pub fn map_mysql_row(
        names: &Vec<String>,
        fulls: &Vec<String>,
        row: &Vec<RawValue>,
    ) -> (r: Vec<JsonScalar>)
        requires
            names@.len() == row@.len(),
            fulls@.len() == row@.len(),
            forall|i: int| 0 <= i < row@.len() ==> raw_wf((#[trigger] row@[i])@),
        ensures
            r@.len() == row@.len(),
            forall|i: int|
                0 <= i < row@.len() ==> (#[trigger] r@[i])@ == map_mysql_spec(
                    names@[i]@,
                    fulls@[i]@,
                    row@[i]@,
                ),
    {
        let n = row.len();
        let mut out: Vec<JsonScalar> = Vec::new();
        let mut i: usize = 0;
        while i < n
            invariant
                i <= n,
                n == row@.len(),
                names@.len() == row@.len(),
                fulls@.len() == row@.len(),
                forall|k: int| 0 <= k < row@.len() ==> raw_wf((#[trigger] row@[k])@),
                out@.len() == i,
                forall|k: int|
                    0 <= k < i ==> (#[trigger] out@[k])@ == map_mysql_spec(
                        names@[k]@,
                        fulls@[k]@,
                        row@[k]@,
                    ),
            decreases n - i,
        {
            out.push(map_mysql_value(names[i].as_str(), fulls[i].as_str(), &row[i]));
            i = i + 1;
        }
        out
    }

    /// Maps a whole SQLite result row.
    pub fn map_sqlite_row(names: &Vec<String>, row: &Vec<RawValue>) -> (r: Vec<JsonScalar>)
        requires
            names@.len() == row@.len(),
            forall|i: int| 0 <= i < row@.len() ==> raw_wf((#[trigger] row@[i])@),
        ensures
            r@.len() == row@.len(),
            forall|i: int|
                0 <= i < row@.len() ==> (#[trigger] r@[i])@ == map_sqlite_spec(
                    names@[i]@,
                    row@[i]@,
                ),
    {
        let n = row.len();
        let mut out: Vec<JsonScalar> = Vec::new();
        let mut i: usize = 0;
        while i < n
            invariant
                i <= n,
                n == row@.len(),
                names@.len() == row@.len(),
                forall|k: int| 0 <= k < row@.len() ==> raw_wf((#[trigger] row@[k])@),
                out@.len() == i,
                forall|k: int|
                    0 <= k < i ==> (#[trigger] out@[k])@ == map_sqlite_spec(names@[k]@, row@[k]@),
            decreases n - i,
        {
            out.push(map_sqlite_value(names[i].as_str(), &row[i]));
            i = i + 1;
        }
        out
    }

    /// Composes the table scan of `get_table_data`: quoted table, WHERE from
    /// the enabled filters, ORDER from the sort descriptor, and the window.
    pub fn get_table_data_sql(
        table_name: &str,
        limit: u32,
        offset: u32,
        filters: Vec<FilterConfig>,
        sort_column: Option<String>,
        sort_direction: Option<String>,
        db_type: DatabaseType,
    ) -> (r: String)
        ensures
            r@ == table_scan_sql_spec(
                table_name@,
                where_clause_spec(filters@, dialect_str(db_type)),
                order_clause_spec(
                    view_opt_str(sort_column),
                    view_opt_str(sort_direction),
                    dialect_str(db_type),
                ),
                limit as nat,
                offset as nat,
                db_type == DatabaseType::MySql,
            ),
    {
        let dialect = dialect_name(db_type);
        let where_clause = build_where_clause(filters, dialect);
        let order_clause = build_order_clause(sort_column, sort_direction, dialect);
        let mysql = matches!(db_type, DatabaseType::MySql);
        table_scan_sql(
            table_name,
            where_clause.as_str(),
            order_clause.as_str(),
            limit,
            offset,
            mysql,
        )
    }

    /// Composes the filtered COUNT of `get_table_count`.
    pub fn get_table_count_sql(
        table_name: &str,
        filters: Vec<FilterConfig>,
        db_type: DatabaseType,
    ) -> (r: String)
        ensures
            r@ == table_count_sql_spec(
                table_name@,
                where_clause_spec(filters@, dialect_str(db_type)),
                db_type == DatabaseType::MySql,
            ),
    {
        let dialect = dialect_name(db_type);
        let where_clause = build_where_clause(filters, dialect);
        let mysql = matches!(db_type, DatabaseType::MySql);
        table_count_sql(table_name, where_clause.as_str(), mysql)
    }

    /// The per-dialect database enumeration query.
    pub fn get_databases_sql(db_type: DatabaseType) -> (r: &'static str)
        ensures
            r@ == (match db_type {
                DatabaseType::Postgres =>
                    "SELECT datname FROM pg_database WHERE datistemplate = false AND datallowconn = true ORDER BY datname;"@,
                DatabaseType::MySql => "SHOW DATABASES;"@,
                DatabaseType::Sqlite => "PRAGMA database_list;"@,
            }),
    {
        match db_type {
            DatabaseType::Postgres => "SELECT datname FROM pg_database WHERE datistemplate = false AND datallowconn = true ORDER BY datname;",
            DatabaseType::MySql => "SHOW DATABASES;",
            DatabaseType::Sqlite => "PRAGMA database_list;",
        }
    }

    /// The per-dialect table enumeration query.
    pub fn get_tables_sql(db_type: DatabaseType) -> (r: &'static str)
        ensures
            r@ == (match db_type {
                DatabaseType::Postgres =>
                    "SELECT table_name::text FROM information_schema.tables WHERE table_schema = 'public';"@,
                DatabaseType::MySql => "SHOW TABLES;"@,
                DatabaseType::Sqlite =>
                    "SELECT name FROM sqlite_schema WHERE type ='table' AND name NOT LIKE 'sqlite_%';"@,
            }),
    {
        match db_type {
            DatabaseType::Postgres => "SELECT table_name::text FROM information_schema.tables WHERE table_schema = 'public';",
            DatabaseType::MySql => "SHOW TABLES;",
            DatabaseType::Sqlite => "SELECT name FROM sqlite_schema WHERE type ='table' AND name NOT LIKE 'sqlite_%';",
        }
    }
}

/// A Postgres column descriptor from `information_schema.columns`: nullable
/// exactly when the catalog says `YES`.
pub fn make_postgres_column(
    name: String,
    data_type: String,
    is_nullable: &str,
    default_value: Option<String>,
    is_primary_key: bool,
) -> (r: TableColumnStructure)
    ensures
        r.name@ == name@,
        r.data_type@ == data_type@,
        r.is_nullable == (is_nullable@ == "YES"@),
        view_opt_str(r.default_value) == view_opt_str(default_value),
        r.is_primary_key == is_primary_key,
        r.comment is None,
{
    let nullable = str_eq(is_nullable, "YES");
    TableColumnStructure {
        name,
        data_type,
        is_nullable: nullable,
        default_value,
        is_primary_key,
        comment: Option::None,
    }
}

/// A MySQL column descriptor from `information_schema.COLUMNS`: primary
/// exactly when the column key is `PRI`.
pub fn make_mysql_column(
    name: String,
    data_type: String,
    is_nullable: &str,
    default_value: Option<String>,
    column_key: &str,
    comment: Option<String>,
) -> (r: TableColumnStructure)
    ensures
        r.name@ == name@,
        r.data_type@ == data_type@,
        r.is_nullable == (is_nullable@ == "YES"@),
        view_opt_str(r.default_value) == view_opt_str(default_value),
        r.is_primary_key == (column_key@ == "PRI"@),
        view_opt_str(r.comment) == view_opt_str(comment),
{
    let nullable = str_eq(is_nullable, "YES");
    let primary = str_eq(column_key, "PRI");
    TableColumnStructure {
        name,
        data_type,
        is_nullable: nullable,
        default_value,
        is_primary_key: primary,
        comment,
    }
}

/// A SQLite column descriptor from `PRAGMA table_info`: nullable when
/// `notnull` is zero, primary when `pk` is positive.
pub fn make_sqlite_column(
    name: String,
    data_type: String,
    notnull: i64,
    default_value: Option<String>,
    pk: i64,
) -> (r: TableColumnStructure)
    ensures
        r.name@ == name@,
        r.data_type@ == data_type@,
        r.is_nullable == (notnull == 0),
        view_opt_str(r.default_value) == view_opt_str(default_value),
        r.is_primary_key == (pk > 0),
        r.comment is None,
{
    TableColumnStructure {
        name,
        data_type,
        is_nullable: notnull == 0,
        default_value,
        is_primary_key: pk > 0,
        comment: Option::None,
    }
}

/// A Postgres index from `pg_indexes`: unique exactly when its definition
/// text contains `UNIQUE`; Postgres defaults to btree and the member
/// columns are not parsed out of the definition.
pub fn make_postgres_index(name: String, definition: &str) -> (r: TableIndexStructure)
    ensures
        r.name@ == name@,
        r.columns@.len() == 0,
        r.is_unique == contains_sub(definition@, "UNIQUE"@),
        r.index_type@ == "btree"@,
{
    let unique = contains_str(definition, "UNIQUE");
    let mut kind = String::new();
    kind.append("btree");
    proof {
        assert(kind@ =~= "btree"@);
    }
    TableIndexStructure { name, columns: Vec::new(), is_unique: unique, index_type: kind }
}

/// A constraint row as both Postgres and MySQL report it: name and type,
/// with no definition text.
pub fn make_constraint(name: String, constraint_type: String) -> (r: TableConstraintStructure)
    ensures
        r.name@ == name@,
        r.constraint_type@ == constraint_type@,
        r.definition@.len() == 0,
{
    TableConstraintStructure { name, constraint_type, definition: String::new() }
}

/// A SQLite foreign key from `PRAGMA foreign_key_list`, named
/// `fk_<table>_<from>` and described as `<from> -> <table>(<to>)`.
pub fn make_sqlite_foreign_key(table: &str, from: &str, to: &str) -> (r: TableConstraintStructure)
    ensures
        r.name@ == "fk_"@ + table@ + "_"@ + from@,
        r.constraint_type@ == "FOREIGN KEY"@,
        r.definition@ == from@ + " -> "@ + table@ + "("@ + to@ + ")"@,
{
    let mut name = String::new();
    name.append("fk_");
    name.append(table);
    name.append("_");
    name.append(from);
    let mut kind = String::new();
    kind.append("FOREIGN KEY");
    let mut def = String::new();
    def.append(from);
    def.append(" -> ");
    def.append(table);
    def.append("(");
    def.append(to);
    def.append(")");
    proof {
        assert(name@ =~= "fk_"@ + table@ + "_"@ + from@);
        assert(kind@ =~= "FOREIGN KEY"@);
        assert(def@ =~= from@ + " -> "@ + table@ + "("@ + to@ + ")"@);
    }
    TableConstraintStructure { name, constraint_type: kind, definition: def }
}

/// A MySQL table size rendered as whole kibibytes.
pub fn format_kb(bytes: u64) -> (r: String)
    ensures
        r@ == dec_str((bytes / 1024) as nat) + " KB"@,
{
    let mut out = String::new();
    push_dec_u64(&mut out, bytes / 1024);
    out.append(" KB");
    proof {
        assert(out@ =~= dec_str((bytes / 1024) as nat) + " KB"@);
    }
    out
}

/// The table metadata SQLite reports: per-table sizes are not available in
/// standard SQL, so every size reads `Unknown`.
pub fn sqlite_table_metadata() -> (r: TableMetadata)
    ensures
        view_opt_str(r.total_size) == Option::Some("Unknown"@),
        view_opt_str(r.data_size) == Option::Some("Unknown"@),
        view_opt_str(r.index_size) == Option::Some("Unknown"@),
        r.comment is None,
{
    let mut a = String::new();
    a.append("Unknown");
    let mut b = String::new();
    b.append("Unknown");
    let mut c = String::new();
    c.append("Unknown");
    proof {
        assert(a@ =~= "Unknown"@);
        assert(b@ =~= "Unknown"@);
        assert(c@ =~= "Unknown"@);
    }
    TableMetadata {
        total_size: Option::Some(a),
        data_size: Option::Some(b),
        index_size: Option::Some(c),
        comment: Option::None,
    }
}

/// A sum of affected-row counts that refuses to wrap around.
pub fn checked_add_u64(a: u64, b: u64) -> (r: Option<u64>)
    ensures
        r is Some <==> a + b <= u64::MAX,
        r is Some ==> r.unwrap() == a + b,
{
    if a <= u64::MAX - b {
        Option::Some(a + b)
    } else {
        Option::None
    }
}


// ---- catalog queries for table structure ----------------------------------
/// The Postgres column catalog query; the table name is bound as `$1`.
pub fn postgres_columns_sql() -> (r: &'static str)
    ensures
        r@
            == "SELECT column_name, data_type, is_nullable, column_default, EXISTS (SELECT 1 FROM information_schema.key_column_usage kcu JOIN information_schema.table_constraints tc ON kcu.constraint_name = tc.constraint_name WHERE kcu.table_name = c.table_name AND kcu.column_name = c.column_name AND tc.constraint_type = 'PRIMARY KEY') as is_primary FROM information_schema.columns c WHERE table_name = $1 AND table_schema = 'public' ORDER BY ordinal_position;"@,
{
    "SELECT column_name, data_type, is_nullable, column_default, EXISTS (SELECT 1 FROM information_schema.key_column_usage kcu JOIN information_schema.table_constraints tc ON kcu.constraint_name = tc.constraint_name WHERE kcu.table_name = c.table_name AND kcu.column_name = c.column_name AND tc.constraint_type = 'PRIMARY KEY') as is_primary FROM information_schema.columns c WHERE table_name = $1 AND table_schema = 'public' ORDER BY ordinal_position;"
}

/// The Postgres index catalog query; the table name is bound as `$1`.
pub fn postgres_indexes_sql() -> (r: &'static str)
    ensures
        r@ == "SELECT indexname, indexdef FROM pg_indexes WHERE tablename = $1 AND schemaname = 'public';"@,
{
    "SELECT indexname, indexdef FROM pg_indexes WHERE tablename = $1 AND schemaname = 'public';"
}

/// The Postgres constraint catalog query; the table name is bound as `$1`.
pub fn postgres_constraints_sql() -> (r: &'static str)
    ensures
        r@ == "SELECT constraint_name, constraint_type FROM information_schema.table_constraints WHERE table_name = $1 AND table_schema = 'public';"@,
{
    "SELECT constraint_name, constraint_type FROM information_schema.table_constraints WHERE table_name = $1 AND table_schema = 'public';"
}

/// The MySQL column catalog query; the table name is bound as `?`.
pub fn mysql_columns_sql() -> (r: &'static str)
    ensures
        r@
            == "SELECT COLUMN_NAME, COLUMN_TYPE, IS_NULLABLE, COLUMN_DEFAULT, COLUMN_KEY, COLUMN_COMMENT FROM information_schema.COLUMNS WHERE TABLE_NAME = ? AND TABLE_SCHEMA = DATABASE() ORDER BY ORDINAL_POSITION;"@,
{
    "SELECT COLUMN_NAME, COLUMN_TYPE, IS_NULLABLE, COLUMN_DEFAULT, COLUMN_KEY, COLUMN_COMMENT FROM information_schema.COLUMNS WHERE TABLE_NAME = ? AND TABLE_SCHEMA = DATABASE() ORDER BY ORDINAL_POSITION;"
}

/// The MySQL constraint catalog query; the table name is bound as `?`.
pub fn mysql_constraints_sql() -> (r: &'static str)
    ensures
        r@ == "SELECT CONSTRAINT_NAME, CONSTRAINT_TYPE FROM information_schema.TABLE_CONSTRAINTS WHERE TABLE_NAME = ? AND TABLE_SCHEMA = DATABASE();"@,
{
    "SELECT CONSTRAINT_NAME, CONSTRAINT_TYPE FROM information_schema.TABLE_CONSTRAINTS WHERE TABLE_NAME = ? AND TABLE_SCHEMA = DATABASE();"
}

/// The Postgres table metadata query; the table name is bound as `$1`.
pub fn postgres_table_metadata_sql() -> (r: &'static str)
    ensures
        r@
            == "SELECT pg_size_pretty(pg_total_relation_size(quote_ident($1))) as total_size, pg_size_pretty(pg_relation_size(quote_ident($1))) as data_size, pg_size_pretty(pg_indexes_size(quote_ident($1))) as index_size, obj_description(quote_ident($1)::regclass, 'pg_class') as comment"@,
{
    "SELECT pg_size_pretty(pg_total_relation_size(quote_ident($1))) as total_size, pg_size_pretty(pg_relation_size(quote_ident($1))) as data_size, pg_size_pretty(pg_indexes_size(quote_ident($1))) as index_size, obj_description(quote_ident($1)::regclass, 'pg_class') as comment"
}

/// The MySQL table metadata query; the table name is bound as `?`.
pub fn mysql_table_metadata_sql() -> (r: &'static str)
    ensures
        r@
            == "SELECT (DATA_LENGTH + INDEX_LENGTH) as total_size, DATA_LENGTH as data_size, INDEX_LENGTH as index_size, TABLE_COMMENT as comment FROM information_schema.TABLES WHERE TABLE_NAME = ?"@,
{
    "SELECT (DATA_LENGTH + INDEX_LENGTH) as total_size, DATA_LENGTH as data_size, INDEX_LENGTH as index_size, TABLE_COMMENT as comment FROM information_schema.TABLES WHERE TABLE_NAME = ?"
}

/// The MySQL index listing for one table.
pub fn mysql_show_index_sql(table: &str) -> (r: String)
    ensures
        r@ == "SHOW INDEX FROM `"@ + crate::text::doubled(table@, '`') + "`"@,
{
    let mut out = String::new();
    out.append("SHOW INDEX FROM `");
    crate::text::push_doubled(&mut out, table, '`');
    out.append("`");
    proof {
        assert(out@ =~= "SHOW INDEX FROM `"@ + crate::text::doubled(table@, '`') + "`"@);
    }
    out
}

fn pragma_sql(prefix: &str, arg: &str) -> (r: String)
    ensures
        r@ == prefix@ + crate::text::doubled(arg@, '"') + "\")"@,
{
    let mut out = String::new();
    out.append(prefix);
    crate::text::push_doubled(&mut out, arg, '"');
    out.append("\")");
    proof {
        assert(out@ =~= prefix@ + crate::text::doubled(arg@, '"') + "\")"@);
    }
    out
}

/// The SQLite column listing for one table.
pub fn sqlite_table_info_sql(table: &str) -> (r: String)
    ensures
        r@ == "PRAGMA table_info(\""@ + crate::text::doubled(table@, '"') + "\")"@,
{
    pragma_sql("PRAGMA table_info(\"", table)
}

/// The SQLite index listing for one table.
pub fn sqlite_index_list_sql(table: &str) -> (r: String)
    ensures
        r@ == "PRAGMA index_list(\""@ + crate::text::doubled(table@, '"') + "\")"@,
{
    pragma_sql("PRAGMA index_list(\"", table)
}

/// The SQLite member columns of one index.
pub fn sqlite_index_info_sql(index: &str) -> (r: String)
    ensures
        r@ == "PRAGMA index_info(\""@ + crate::text::doubled(index@, '"') + "\")"@,
{
    pragma_sql("PRAGMA index_info(\"", index)
}

/// The SQLite foreign keys of one table.
pub fn sqlite_foreign_key_list_sql(table: &str) -> (r: String)
    ensures
        r@ == "PRAGMA foreign_key_list(\""@ + crate::text::doubled(table@, '"') + "\")"@,
{
    pragma_sql("PRAGMA foreign_key_list(\"", table)
}

// ---- MySQL index grouping -------------------------------------------------
/// One row of `SHOW INDEX FROM`: the fields the grouping reads.
#[derive(Debug, Clone)]
pub struct MysqlIndexRow {
    pub key_name: String,
    pub column_name: String,
    pub non_unique: i64,
    pub index_type: String,
}

/// The distinct index names, in order of first appearance.
pub open spec fn mi_names(rows: Seq<MysqlIndexRow>) -> Seq<Seq<char>>
    decreases rows.len(),
{
    if rows.len() == 0 {
        Seq::empty()
    } else {
        let rest = mi_names(rows.drop_last());
        if rest.contains(rows.last().key_name@) {
            rest
        } else {
            rest.push(rows.last().key_name@)
        }
    }
}

/// The member columns of one index, in row order.
pub open spec fn mi_cols(rows: Seq<MysqlIndexRow>, name: Seq<char>) -> Seq<Seq<char>>
    decreases rows.len(),
{
    if rows.len() == 0 {
        Seq::empty()
    } else {
        let rest = mi_cols(rows.drop_last(), name);
        if rows.last().key_name@ == name {
            rest.push(rows.last().column_name@)
        } else {
            rest
        }
    }
}

/// The first row of one index, which fixes its uniqueness and its type.
pub open spec fn mi_first(rows: Seq<MysqlIndexRow>, name: Seq<char>) -> Option<MysqlIndexRow>
    decreases rows.len(),
{
    if rows.len() == 0 {
        Option::None
    } else {
        match mi_first(rows.drop_last(), name) {
            Option::Some(f) => Option::Some(f),
            Option::None => if rows.last().key_name@ == name {
                Option::Some(rows.last())
            } else {
                Option::None
            },
        }
    }
}

/// Groups the rows of `SHOW INDEX FROM` into one entry per index: the
/// entry keeps the order of first appearance, collects its member columns
/// in row order, and takes uniqueness and type from the index's first row.
pub fn group_mysql_indexes(rows: &Vec<MysqlIndexRow>) -> (r: Vec<TableIndexStructure>)
    ensures
        r@.len() == mi_names(rows@).len(),
        forall|j: int| 0 <= j < r@.len() ==> (#[trigger] r@[j]).name@ == mi_names(rows@)[j],
        forall|j: int|
            0 <= j < r@.len() ==> crate::import::strings_view((#[trigger] r@[j]).columns@)
                == mi_cols(rows@, mi_names(rows@)[j]),
        forall|j: int|
            0 <= j < mi_names(rows@).len() ==> (#[trigger] mi_first(rows@, mi_names(rows@)[j]))
                is Some,
        forall|j: int|
            0 <= j < r@.len() ==> (#[trigger] r@[j]).is_unique == (mi_first(
                rows@,
                mi_names(rows@)[j],
            ).unwrap().non_unique == 0) && r@[j].index_type@ == mi_first(
                rows@,
                mi_names(rows@)[j],
            ).unwrap().index_type@,
{
    let n = rows.len();
    let mut names: Vec<String> = Vec::new();
    let mut i: usize = 0;
    proof {
        assert(rows@.take(0) =~= Seq::<MysqlIndexRow>::empty());
        assert(mi_names(rows@.take(0)) =~= Seq::<Seq<char>>::empty());
        assert(crate::import::strings_view(names@) =~= Seq::<Seq<char>>::empty());
    }
    while i < n
        invariant
            i <= n,
            n == rows@.len(),
            crate::import::strings_view(names@) == mi_names(rows@.take(i as int)),
        decreases n - i,
    {
        proof {
            assert(rows@.take(i + 1).drop_last() =~= rows@.take(i as int));
            assert(rows@.take(i + 1).last() == rows@[i as int]);
        }
        let key = &rows[i].key_name;
        let mut seen: bool = false;
        let m = names.len();
        let mut k: usize = 0;
        while k < m
            invariant
                k <= m,
                m == names@.len(),
                seen ==> crate::import::strings_view(names@).contains(key@),
                !seen ==> forall|t: int| 0 <= t < k ==> (#[trigger] names@[t])@ != key@,
            decreases m - k,
        {
            if crate::text::str_eq(names[k].as_str(), key.as_str()) {
                proof {
                    assert(crate::import::strings_view(names@)[k as int] == key@);
                }
                seen = true;
                k = m;
            } else {
                k = k + 1;
            }
        }
        if !seen {
            proof {
                assert(forall|t: int|
                    0 <= t < names@.len() ==> (#[trigger] names@[t])@ != key@);
                assert(!crate::import::strings_view(names@).contains(key@)) by {
                    if crate::import::strings_view(names@).contains(key@) {
                        let t = choose|t: int|
                            0 <= t < crate::import::strings_view(names@).len()
                                && crate::import::strings_view(names@)[t] == key@;
                        assert(names@[t]@ == key@);
                    }
                }
            }
            names.push(key.clone());
            proof {
                assert(crate::import::strings_view(names@) =~= crate::import::strings_view(
                    names@.drop_last(),
                ).push(names@.last()@));
            }
        }
        proof {
            assert(crate::import::strings_view(names@) =~= mi_names(rows@.take(i + 1)));
        }
        i = i + 1;
    }
    proof {
        assert(rows@.take(n as int) =~= rows@);
        assert forall|t: int|
            0 <= t < mi_names(rows@).len() implies (#[trigger] mi_first(
            rows@,
            mi_names(rows@)[t],
        )) is Some by {
            lemma_mi_names_have_first(rows@, t);
        }
    }
    // second pass: one structure per distinct name
    let g = names.len();
    let mut out: Vec<TableIndexStructure> = Vec::new();
    let mut j: usize = 0;
    while j < g
        invariant
            j <= g,
            g == names@.len(),
            n == rows@.len(),
            crate::import::strings_view(names@) == mi_names(rows@),
            out@.len() == j,
            forall|t: int| 0 <= t < j ==> (#[trigger] out@[t]).name@ == mi_names(rows@)[t],
            forall|t: int|
                0 <= t < j ==> crate::import::strings_view((#[trigger] out@[t]).columns@)
                    == mi_cols(rows@, mi_names(rows@)[t]),
            forall|t: int|
                0 <= t < mi_names(rows@).len() ==> (#[trigger] mi_first(
                    rows@,
                    mi_names(rows@)[t],
                )) is Some,
            forall|t: int|
                0 <= t < j ==> (#[trigger] out@[t]).is_unique == (mi_first(
                    rows@,
                    mi_names(rows@)[t],
                ).unwrap().non_unique == 0) && out@[t].index_type@ == mi_first(
                    rows@,
                    mi_names(rows@)[t],
                ).unwrap().index_type@,
        decreases g - j,
    {
        let name = &names[j];
        proof {
            assert(names@[j as int]@ == mi_names(rows@)[j as int]);
        }
        let mut cols: Vec<String> = Vec::new();
        let mut first: Option<usize> = Option::None;
        let mut k: usize = 0;
        proof {
            assert(mi_cols(rows@.take(0), name@) =~= Seq::<Seq<char>>::empty());
            assert(crate::import::strings_view(cols@) =~= Seq::<Seq<char>>::empty());
            assert(mi_first(rows@.take(0), name@) is None);
        }
        while k < n
            invariant
                k <= n,
                n == rows@.len(),
                crate::import::strings_view(cols@) == mi_cols(rows@.take(k as int), name@),
                match first {
                    Option::Some(f) => f < n && mi_first(rows@.take(k as int), name@)
                        == Option::Some(rows@[f as int]),
                    Option::None => mi_first(rows@.take(k as int), name@) is None,
                },
            decreases n - k,
        {
            proof {
                assert(rows@.take(k + 1).drop_last() =~= rows@.take(k as int));
                assert(rows@.take(k + 1).last() == rows@[k as int]);
            }
            if crate::text::str_eq(rows[k].key_name.as_str(), name.as_str()) {
                cols.push(rows[k].column_name.clone());
                proof {
                    assert(crate::import::strings_view(cols@) =~= crate::import::strings_view(
                        cols@.drop_last(),
                    ).push(cols@.last()@));
                }
                if first.is_none() {
                    first = Option::Some(k);
                }
            }
            k = k + 1;
        }
        proof {
            assert(rows@.take(n as int) =~= rows@);
        }
        match first {
            Option::Some(f) => {
                let unique = rows[f].non_unique == 0;
                let kind = rows[f].index_type.clone();
                out.push(
                    TableIndexStructure {
                        name: name.clone(),
                        columns: cols,
                        is_unique: unique,
                        index_type: kind,
                    },
                );
                proof {
                    let nm = mi_names(rows@)[j as int];
                    assert(out@.last().name@ == nm);
                    assert(crate::import::strings_view(out@.last().columns@) == mi_cols(
                        rows@,
                        nm,
                    ));
                    assert(mi_first(rows@, nm) == Option::Some(rows@[f as int]));
                    assert(out@.last().is_unique == (mi_first(rows@, nm).unwrap().non_unique
                        == 0));
                    assert(out@.last().index_type@ == mi_first(rows@, nm).unwrap().index_type@);
                }
            },
            Option::None => {
                proof {
                    lemma_mi_names_have_first(rows@, j as int);
                    assert(false);
                }
            },
        }
        j = j + 1;
    }
    out
}

/// Every name the grouping lists has a first row.
proof fn lemma_mi_names_have_first(rows: Seq<MysqlIndexRow>, j: int)
    requires
        0 <= j < mi_names(rows).len(),
    ensures
        mi_first(rows, mi_names(rows)[j]) is Some,
    decreases rows.len(),
{
    if rows.len() > 0 {
        let rest = mi_names(rows.drop_last());
        if rest.contains(rows.last().key_name@) {
            lemma_mi_names_have_first(rows.drop_last(), j);
        } else {
            if j < rest.len() {
                lemma_mi_names_have_first(rows.drop_last(), j);
            } else {
                assert(mi_names(rows)[j] == rows.last().key_name@);
            }
        }
    }
}

} // verus!
