use sqlmate::engine::QueryEngine;
use sqlmate::export::{csv_field_of, export_file_path, render_insert, sql_literal_of};
use sqlmate::import::{create_table_sql, insert_sql, parse_usize, resolve_columns, SqlSplitter};
use sqlmate::sqlbuild::{
    build_order_clause, build_where_clause, create_database_sql, table_count_sql, wrap_count,
    wrap_pagination,
};
use sqlmate::types::{DatabaseType, FilterConfig, JsonScalar};

fn filter(column: &str, operator: &str, value: &str, enabled: bool) -> FilterConfig {
    FilterConfig {
        id: "f".to_string(),
        column: column.to_string(),
        operator: operator.to_string(),
        value: value.to_string(),
        enabled,
    }
}

#[test]
fn where_clause_doubles_single_quotes() {
    let w = build_where_clause(vec![filter("name", "=", "o'brien", true)], "postgres");
    assert_eq!(w, "WHERE \"name\" = 'o''brien'");
}

#[test]
fn where_clause_joins_enabled_filters_only() {
    let w = build_where_clause(
        vec![
            filter("a", ">", "1", true),
            filter("b", "<", "2", false),
            filter("c", "IS NULL", "", true),
        ],
        "sqlite",
    );
    assert_eq!(w, "WHERE \"a\" > '1' AND \"c\" IS NULL");
}

#[test]
fn where_clause_empty_without_contributions() {
    assert_eq!(build_where_clause(vec![], "postgres"), "");
    assert_eq!(build_where_clause(vec![filter("a", "=", "1", false)], "postgres"), "");
}

#[test]
fn where_clause_mysql_backtick_quoting() {
    let w = build_where_clause(vec![filter("we`ird", "!=", "x", true)], "mysql");
    assert_eq!(w, "WHERE `we``ird` != 'x'");
}

#[test]
fn where_clause_in_inserts_list_verbatim() {
    let w = build_where_clause(vec![filter("id", "IN", "1, 2, 3", true)], "postgres");
    assert_eq!(w, "WHERE \"id\" IN (1, 2, 3)");
}

#[test]
fn where_clause_ilike_only_on_postgres() {
    let pg = build_where_clause(vec![filter("n", "ILIKE", "ab", true)], "postgres");
    assert_eq!(pg, "WHERE \"n\" ILIKE 'ab%'");
    let my = build_where_clause(vec![filter("n", "ILIKE", "ab", true)], "mysql");
    assert_eq!(my, "WHERE `n` LIKE 'ab%'");
}

#[test]
fn where_clause_contains_and_ends_with() {
    let w = build_where_clause(
        vec![filter("e", "Contains", "x", true), filter("e", "Ends With", "y", true)],
        "sqlite",
    );
    assert_eq!(w, "WHERE \"e\" LIKE '%x%' AND \"e\" LIKE '%y'");
}

#[test]
fn where_clause_unknown_operator_falls_back_to_equality() {
    let w = build_where_clause(vec![filter("a", "BETWIXT", "5", true)], "postgres");
    assert_eq!(w, "WHERE \"a\" = '5'");
}

#[test]
fn order_clause_directions() {
    let desc = build_order_clause(Some("id".to_string()), Some("DESC".to_string()), "postgres");
    assert_eq!(desc, "ORDER BY \"id\" DESC");
    let asc = build_order_clause(Some("id".to_string()), Some("sideways".to_string()), "mysql");
    assert_eq!(asc, "ORDER BY `id` ASC");
    let none = build_order_clause(None, Some("DESC".to_string()), "postgres");
    assert_eq!(none, "");
}

#[test]
fn pagination_wraps_select() {
    let sql = wrap_pagination("  SELECT * FROM t;  ", 10, 20);
    assert_eq!(sql, "SELECT * FROM (SELECT * FROM t) AS _q LIMIT 10 OFFSET 20");
}

#[test]
fn pagination_passes_non_select_through() {
    assert_eq!(wrap_pagination("UPDATE t SET a = 1", 10, 0), "UPDATE t SET a = 1");
}

#[test]
fn pagination_is_case_insensitive_on_select() {
    let sql = wrap_pagination("select 1", 5, 0);
    assert_eq!(sql, "SELECT * FROM (select 1) AS _q LIMIT 5 OFFSET 0");
}

#[test]
fn count_wraps_select_and_refuses_others() {
    assert_eq!(wrap_count("SELECT a FROM t;"), "SELECT COUNT(*) FROM (SELECT a FROM t) AS _q");
    assert_eq!(wrap_count("DELETE FROM t"), "");
}

#[test]
fn table_scan_matches_browse_request() {
    let sql = QueryEngine::get_table_data_sql(
        "users",
        50,
        100,
        vec![filter("email", "Contains", "o'brien", true)],
        Some("id".to_string()),
        Some("DESC".to_string()),
        DatabaseType::Postgres,
    );
    assert_eq!(
        sql,
        "SELECT * FROM \"users\" WHERE \"email\" LIKE '%o''brien%' ORDER BY \"id\" DESC LIMIT 50 OFFSET 100;",
    );
}

#[test]
fn table_count_sql_carries_filters() {
    let sql = table_count_sql("users", "WHERE \"a\" = '1'", false);
    assert_eq!(sql, "SELECT COUNT(*) FROM \"users\" WHERE \"a\" = '1';");
    let my = QueryEngine::get_table_count_sql("t", vec![], DatabaseType::MySql);
    assert_eq!(my, "SELECT COUNT(*) FROM `t` ;");
}

#[test]
fn create_database_statements() {
    assert_eq!(create_database_sql("shop", false), "CREATE DATABASE \"shop\"");
    assert_eq!(create_database_sql("shop", true), "CREATE DATABASE `shop`");
}

#[test]
fn plan_query_wraps_when_paged() {
    let plan = QueryEngine::plan_query("SELECT * FROM t", Some(2), Some(25));
    assert_eq!(plan.final_sql, "SELECT * FROM (SELECT * FROM t) AS _q LIMIT 25 OFFSET 50");
    assert_eq!(plan.count_sql.unwrap(), "SELECT COUNT(*) FROM (SELECT * FROM t) AS _q");
}

#[test]
fn plan_query_leaves_unpaged_sql_alone() {
    let plan = QueryEngine::plan_query("SELECT 1", None, Some(10));
    assert_eq!(plan.final_sql, "SELECT 1");
    assert!(plan.count_sql.is_none());
    let zero = QueryEngine::plan_query("SELECT 1", Some(3), Some(0));
    assert_eq!(zero.final_sql, "SELECT 1");
    assert!(zero.count_sql.is_some());
}

#[test]
fn sql_splitter_respects_string_literals() {
    let mut sp = SqlSplitter::new(false);
    sp.feed_line("INSERT INTO t VALUES ('a;b');");
    sp.feed_line("-- comment; skipped entirely");
    sp.feed_line("UPDATE t SET x = 1");
    let stmts = sp.finish();
    assert_eq!(
        stmts,
        vec!["INSERT INTO t VALUES ('a;b');".to_string(), "UPDATE t SET x = 1".to_string()],
    );
}

#[test]
fn sql_splitter_backticks_only_quote_on_mysql() {
    let mut my = SqlSplitter::new(true);
    my.feed_line("SELECT `a;b` FROM t;");
    assert_eq!(my.finish(), vec!["SELECT `a;b` FROM t;".to_string()]);
    let mut pg = SqlSplitter::new(false);
    pg.feed_line("SELECT `a;b` FROM t;");
    let stmts = pg.finish();
    assert_eq!(stmts.len(), 2);
    assert_eq!(stmts[0], "SELECT `a;");
}

#[test]
fn sql_splitter_joins_statements_across_lines() {
    let mut sp = SqlSplitter::new(false);
    sp.feed_line("CREATE TABLE t (");
    sp.feed_line("  id INTEGER");
    sp.feed_line(");");
    assert_eq!(sp.finish(), vec!["CREATE TABLE t (\n  id INTEGER\n);".to_string()]);
}

#[test]
fn parse_usize_accepts_digits_and_plus() {
    assert_eq!(parse_usize("12"), Some(12));
    assert_eq!(parse_usize("+7"), Some(7));
    assert_eq!(parse_usize("0"), Some(0));
    assert_eq!(parse_usize(""), None);
    assert_eq!(parse_usize("+"), None);
    assert_eq!(parse_usize("4a"), None);
    assert_eq!(parse_usize("99999999999999999999999999"), None);
}

#[test]
fn resolve_columns_auto_maps_headers() {
    let headers = vec!["a".to_string(), "b".to_string()];
    let (cols, idxs) = resolve_columns(&vec![], &headers);
    assert_eq!(cols, headers);
    assert_eq!(idxs, vec![0, 1]);
}

#[test]
fn resolve_columns_by_name_and_index() {
    let mapping = vec![
        ("colx".to_string(), "x".to_string()),
        ("1".to_string(), "y".to_string()),
        ("missing".to_string(), "z".to_string()),
    ];
    let headers = vec!["cola".to_string(), "colb".to_string(), "colx".to_string()];
    let (cols, idxs) = resolve_columns(&mapping, &headers);
    assert_eq!(cols, vec!["x".to_string(), "y".to_string()]);
    assert_eq!(idxs, vec![2, 1]);
}

#[test]
fn insert_sql_placeholders_per_dialect() {
    let cols = vec!["a".to_string(), "b".to_string()];
    assert_eq!(insert_sql("t", &cols, "postgres"), "INSERT INTO \"t\" (\"a\", \"b\") VALUES ($1, $2)");
    assert_eq!(insert_sql("t", &cols, "mysql"), "INSERT INTO `t` (`a`, `b`) VALUES (?, ?)");
    assert_eq!(insert_sql("t", &cols, "sqlite"), "INSERT INTO \"t\" (\"a\", \"b\") VALUES (?, ?)");
}

#[test]
fn create_table_sql_types_every_column_text() {
    let cols = vec!["a".to_string(), "b b".to_string()];
    assert_eq!(
        create_table_sql("t", &cols, "postgres"),
        "CREATE TABLE IF NOT EXISTS \"t\" (\"a\" TEXT, \"b b\" TEXT)",
    );
}

#[test]
fn csv_fields_render_plain_values() {
    assert_eq!(csv_field_of(&JsonScalar::Null), "");
    assert_eq!(csv_field_of(&JsonScalar::Str("x".to_string())), "x");
    assert_eq!(csv_field_of(&JsonScalar::IntNum(-42)), "-42");
    assert_eq!(csv_field_of(&JsonScalar::UintNum(18446744073709551615)), "18446744073709551615");
    assert_eq!(csv_field_of(&JsonScalar::Bool(true)), "true");
    assert_eq!(csv_field_of(&JsonScalar::FloatNum("1.5".to_string())), "1.5");
}

#[test]
fn sql_literals_escape_strings() {
    assert_eq!(sql_literal_of(&JsonScalar::Null), "NULL");
    assert_eq!(sql_literal_of(&JsonScalar::Str("o'b".to_string())), "'o''b'");
    assert_eq!(sql_literal_of(&JsonScalar::IntNum(-9223372036854775808)), "-9223372036854775808");
    assert_eq!(sql_literal_of(&JsonScalar::Bool(false)), "false");
}

#[test]
fn render_insert_writes_one_statement_per_row() {
    let cols = vec!["id".to_string(), "name".to_string()];
    let row = vec![JsonScalar::IntNum(1), JsonScalar::Str("o'b".to_string())];
    assert_eq!(
        render_insert("t", &cols, &row, false),
        "INSERT INTO \"t\" (\"id\", \"name\") VALUES (1, 'o''b');\n",
    );
    assert_eq!(
        render_insert("t", &cols, &row, true),
        "INSERT INTO `t` (`id`, `name`) VALUES (1, 'o''b');\n",
    );
}

#[test]
fn export_paths_suffix_only_for_multiple_tables() {
    assert_eq!(export_file_path("/tmp/out.csv", "t", "csv", false), "/tmp/out.csv");
    assert_eq!(export_file_path("/tmp/out", "t", "csv", true), "/tmp/out_t.csv");
}
