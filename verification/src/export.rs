//! Export rendering: each mapped row becomes a CSV record, a JSON-ready
//! pair list, or an INSERT statement, all from the same scalar domain the
//! executor produces. Writing files and driving cursors happens outside.
use vstd::prelude::*;

use crate::import::{quoted_cols, strings_view};
use crate::sqlbuild::{joined, lemma_joined_push, push_quoted_ident, quoted_ident};
use crate::text::{dec_str, dec_str_signed, doubled, push_dec_i64, push_dec_u64, push_doubled};
use crate::types::{JsonScalar, JsonVal};

verus! {

/// Per-table progress of a streaming export.
#[derive(Debug, Clone)]
pub struct ExportProgress {
    pub export_id: String,
    pub current_table: String,
    pub rows_exported: u64,
    pub status: String,
    pub error: Option<String>,
}

/// What to export and where.
#[derive(Debug)]
pub struct ExportOptions {
    pub tables: Vec<String>,
    pub output_path: String,
    pub format: String,
    pub include_schema: bool,
    pub include_data: bool,
}

/// The CSV cell text of one scalar: null becomes the empty cell, strings
/// pass through unchanged, numbers and booleans print their plain form.
pub open spec fn csv_field_spec(v: JsonVal) -> Seq<char> {
    match v {
        JsonVal::Null => Seq::empty(),
        JsonVal::Str(s) => s,
        JsonVal::Int(n) => dec_str_signed(n),
        JsonVal::Uint(n) => if n >= 0 {
            dec_str(n as nat)
        } else {
            Seq::empty()
        },
        JsonVal::Float(r) => r,
        JsonVal::Bool(b) => if b {
            "true"@
        } else {
            "false"@
        },
    }
}

/// Renders one scalar as a CSV cell.
pub fn csv_field_of(v: &JsonScalar) -> (r: String)
    ensures
        r@ == csv_field_spec(v@),
{
    match v {
        JsonScalar::Null => String::new(),
        JsonScalar::Str(s) => s.clone(),
        JsonScalar::IntNum(n) => {
            let mut out = String::new();
            push_dec_i64(&mut out, *n);
            proof {
                assert(out@ =~= dec_str_signed(*n as int));
            }
            out
        },
        JsonScalar::UintNum(n) => {
            let mut out = String::new();
            push_dec_u64(&mut out, *n);
            proof {
                assert(out@ =~= dec_str(*n as nat));
            }
            out
        },
        JsonScalar::FloatNum(r) => r.clone(),
        JsonScalar::Bool(b) => {
            let mut out = String::new();
            if *b {
                out.append("true");
                proof {
                    assert(out@ =~= "true"@);
                }
            } else {
                out.append("false");
                proof {
                    assert(out@ =~= "false"@);
                }
            }
            out
        },
    }
}

/// The SQL literal of one scalar: null is `NULL`, a string is quoted with
/// every single quote doubled, numbers and booleans print their plain form.
pub open spec fn sql_literal_spec(v: JsonVal) -> Seq<char> {
    match v {
        JsonVal::Null => "NULL"@,
        JsonVal::Str(s) => "'"@ + doubled(s, '\'') + "'"@,
        JsonVal::Int(n) => dec_str_signed(n),
        JsonVal::Uint(n) => if n >= 0 {
            dec_str(n as nat)
        } else {
            Seq::empty()
        },
        JsonVal::Float(r) => r,
        JsonVal::Bool(b) => if b {
            "true"@
        } else {
            "false"@
        },
    }
}

/// Renders one scalar as a SQL literal.
pub fn sql_literal_of(v: &JsonScalar) -> (r: String)
    ensures
        r@ == sql_literal_spec(v@),
{
    match v {
        JsonScalar::Null => {
            let mut out = String::new();
            out.append("NULL");
            proof {
                assert(out@ =~= "NULL"@);
            }
            out
        },
        JsonScalar::Str(s) => {
            let mut out = String::new();
            out.append("'");
            push_doubled(&mut out, s.as_str(), '\'');
            out.append("'");
            proof {
                assert(out@ =~= "'"@ + doubled(s@, '\'') + "'"@);
            }
            out
        },
        JsonScalar::IntNum(n) => {
            let mut out = String::new();
            push_dec_i64(&mut out, *n);
            proof {
                assert(out@ =~= dec_str_signed(*n as int));
            }
            out
        },
        JsonScalar::UintNum(n) => {
            let mut out = String::new();
            push_dec_u64(&mut out, *n);
            proof {
                assert(out@ =~= dec_str(*n as nat));
            }
            out
        },
        JsonScalar::FloatNum(r) => r.clone(),
        JsonScalar::Bool(b) => {
            let mut out = String::new();
            if *b {
                out.append("true");
                proof {
                    assert(out@ =~= "true"@);
                }
            } else {
                out.append("false");
                proof {
                    assert(out@ =~= "false"@);
                }
            }
            out
        },
    }
}

/// Renders a whole row as CSV cells, in column order.
pub fn row_to_record(row: &Vec<JsonScalar>) -> (r: Vec<String>)
    ensures
        r@.len() == row@.len(),
        forall|i: int|
            0 <= i < row@.len() ==> (#[trigger] r@[i])@ == csv_field_spec(row@[i]@),
{
    let n = row.len();
    let mut out: Vec<String> = Vec::new();
    let mut i: usize = 0;
    while i < n
        invariant
            i <= n,
            n == row@.len(),
            out@.len() == i,
            forall|k: int| 0 <= k < i ==> (#[trigger] out@[k])@ == csv_field_spec(row@[k]@),
        decreases n - i,
    {
        out.push(csv_field_of(&row[i]));
        i = i + 1;
    }
    out
}

/// The SQL literals of a whole row.
pub open spec fn sql_literals(row: Seq<JsonScalar>) -> Seq<Seq<char>> {
    row.map_values(|v: JsonScalar| sql_literal_spec(v@))
}

/// One exported row as an INSERT statement, newline terminated.
pub open spec fn insert_row_spec(
    table: Seq<char>,
    columns: Seq<Seq<char>>,
    row: Seq<JsonScalar>,
    mysql: bool,
) -> Seq<char> {
    "INSERT INTO "@ + quoted_ident(table, mysql) + " ("@ + joined(quoted_cols(columns, mysql), ", "@)
        + ") VALUES ("@ + joined(sql_literals(row), ", "@) + ");\n"@
}

/// Renders one row of a SQL export as an INSERT statement.
pub fn render_insert(
    table: &str,
    columns: &Vec<String>,
    row: &Vec<JsonScalar>,
    mysql: bool,
) -> (r: String)
    ensures
        r@ == insert_row_spec(table@, strings_view(columns@), row@, mysql),
{
    let mut out = String::new();
    out.append("INSERT INTO ");
    push_quoted_ident(&mut out, table, mysql);
    out.append(" (");
    let ghost cview = strings_view(columns@);
    let ghost mid1 = out@;
    let n = columns.len();
    let mut i: usize = 0;
    proof {
        assert(quoted_cols(cview.take(0), mysql) =~= Seq::<Seq<char>>::empty());
        assert(mid1 + joined(quoted_cols(cview.take(0), mysql), ", "@) =~= mid1);
    }
    while i < n
        invariant
            i <= n,
            n == columns@.len(),
            cview == strings_view(columns@),
            out@ == mid1 + joined(quoted_cols(cview.take(i as int), mysql), ", "@),
        decreases n - i,
    {
        if i > 0 {
            out.append(", ");
        }
        push_quoted_ident(&mut out, columns[i].as_str(), mysql);
        proof {
            assert(quoted_cols(cview.take(i + 1), mysql) =~= quoted_cols(
                cview.take(i as int),
                mysql,
            ).push(quoted_ident(cview[i as int], mysql)));
            lemma_joined_push(
                quoted_cols(cview.take(i as int), mysql),
                ", "@,
                quoted_ident(cview[i as int], mysql),
            );
            assert(out@ =~= mid1 + joined(quoted_cols(cview.take(i + 1), mysql), ", "@));
        }
        i = i + 1;
    }
    proof {
        assert(cview.take(n as int) =~= cview);
    }
    out.append(") VALUES (");
    let ghost mid2 = out@;
    let m = row.len();
    let mut k: usize = 0;
    proof {
        assert(sql_literals(row@.take(0)) =~= Seq::<Seq<char>>::empty());
        assert(mid2 + joined(sql_literals(row@.take(0)), ", "@) =~= mid2);
    }
    while k < m
        invariant
            k <= m,
            m == row@.len(),
            out@ == mid2 + joined(sql_literals(row@.take(k as int)), ", "@),
        decreases m - k,
    {
        if k > 0 {
            out.append(", ");
        }
        let lit = sql_literal_of(&row[k]);
        out.append(lit.as_str());
        proof {
            assert(sql_literals(row@.take(k + 1)) =~= sql_literals(row@.take(k as int)).push(
                sql_literal_spec(row@[k as int]@),
            ));
            lemma_joined_push(
                sql_literals(row@.take(k as int)),
                ", "@,
                sql_literal_spec(row@[k as int]@),
            );
            assert(out@ =~= mid2 + joined(sql_literals(row@.take(k + 1)), ", "@));
        }
        k = k + 1;
    }
    proof {
        assert(row@.take(m as int) =~= row@);
    }
    out.append(");\n");
    proof {
        assert(out@ =~= insert_row_spec(table@, strings_view(columns@), row@, mysql));
    }
    out
}

/// The full-table scan an export streams over.
pub fn select_all_sql(table: &str, mysql: bool) -> (r: String)
    ensures
        r@ == "SELECT * FROM "@ + quoted_ident(table@, mysql),
{
    let mut out = String::new();
    out.append("SELECT * FROM ");
    push_quoted_ident(&mut out, table, mysql);
    proof {
        assert(out@ =~= "SELECT * FROM "@ + quoted_ident(table@, mysql));
    }
    out
}

/// The filtered, ordered scan of `export_table_data`.
pub fn export_scan_sql(
    table: &str,
    where_clause: &str,
    order_clause: &str,
    mysql: bool,
) -> (r: String)
    ensures
        r@ == "SELECT * FROM "@ + quoted_ident(table@, mysql) + " "@ + where_clause@ + " "@
            + order_clause@ + ";"@,
{
    let mut out = String::new();
    out.append("SELECT * FROM ");
    push_quoted_ident(&mut out, table, mysql);
    out.append(" ");
    out.append(where_clause);
    out.append(" ");
    out.append(order_clause);
    out.append(";");
    proof {
        assert(out@ =~= "SELECT * FROM "@ + quoted_ident(table@, mysql) + " "@ + where_clause@
            + " "@ + order_clause@ + ";"@);
    }
    out
}

/// Where one table's file goes: the output path itself for a single table,
/// `<path>_<table>.<ext>` when several tables are exported.
pub fn export_file_path(output_path: &str, table: &str, ext: &str, multiple: bool) -> (r: String)
    ensures
        multiple ==> r@ == output_path@ + "_"@ + table@ + "."@ + ext@,
        !multiple ==> r@ == output_path@,
{
    let mut out = String::new();
    out.append(output_path);
    if multiple {
        out.append("_");
        out.append(table);
        out.append(".");
        out.append(ext);
        proof {
            assert(out@ =~= output_path@ + "_"@ + table@ + "."@ + ext@);
        }
    } else {
        proof {
            assert(out@ =~= output_path@);
        }
    }
    out
}

/// Whether a progress event is due after this many rows: every thousandth.
pub fn progress_due(rows_exported: u64) -> (r: bool)
    ensures
        r == (rows_exported % 1000 == 0),
{
    rows_exported % 1000 == 0
}

/// The schema line of a MySQL table in a SQL export.
pub fn show_create_table_sql(table: &str) -> (r: String)
    ensures
        r@ == "SHOW CREATE TABLE `"@ + doubled(table@, '`') + "`"@,
{
    let mut out = String::new();
    out.append("SHOW CREATE TABLE `");
    push_doubled(&mut out, table, '`');
    out.append("`");
    proof {
        assert(out@ =~= "SHOW CREATE TABLE `"@ + doubled(table@, '`') + "`"@);
    }
    out
}

/// The schema lookup of a SQLite table in a SQL export; the table name is
/// bound as a parameter.
pub fn sqlite_schema_sql() -> (r: &'static str)
    ensures
        r@ == "SELECT sql FROM sqlite_master WHERE type='table' AND name=?"@,
{
    "SELECT sql FROM sqlite_master WHERE type='table' AND name=?"
}

/// The placeholder schema comment a Postgres SQL export writes.
pub fn postgres_schema_comment(table: &str) -> (r: String)
    ensures
        r@ == "-- CREATE TABLE for "@ + table@
            + " (Postgres DDL extraction not fully implemented)"@,
{
    let mut out = String::new();
    out.append("-- CREATE TABLE for ");
    out.append(table);
    out.append(" (Postgres DDL extraction not fully implemented)");
    proof {
        assert(out@ =~= "-- CREATE TABLE for "@ + table@
            + " (Postgres DDL extraction not fully implemented)"@);
    }
    out
}

} // verus!
