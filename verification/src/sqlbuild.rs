//! Dialect-aware SQL composition: identifier quoting, literal escaping,
//! WHERE/ORDER clause building from structured filters, and the pagination
//! and COUNT rewrites of the one-shot executor.
//!
//! Literal values are interpolated with single quotes doubled rather than
//! bound as parameters; `IN` inserts its user-supplied list verbatim. This
//! is a deliberate, documented trust boundary: filter values come from the
//! authenticated UI user of a local workstation.
use vstd::prelude::*;

use crate::text::{
    dec_str, doubled, escape_doubling, is_select_prefix, push_dec_u64, push_doubled,
    starts_with_select, str_eq, strip_trailing, trim_spaces, trimmed, without_trailing,
};
use crate::types::FilterConfig;

verus! {

/// An identifier quoted for the dialect: backticks for MySQL, double quotes
/// otherwise, with inner quote characters doubled.
pub open spec fn quoted_ident(s: Seq<char>, mysql: bool) -> Seq<char> {
    if mysql {
        seq!['`'] + doubled(s, '`') + seq!['`']
    } else {
        seq!['"'] + doubled(s, '"') + seq!['"']
    }
}

/// Appends `s` quoted as an identifier for the dialect.
pub fn push_quoted_ident(out: &mut String, s: &str, mysql: bool)
    ensures
        final(out)@ == old(out)@ + quoted_ident(s@, mysql),
{
    if mysql {
        crate::text::push_char(out, '`');
        push_doubled(out, s, '`');
        crate::text::push_char(out, '`');
        proof {
            assert(old(out)@.push('`') + doubled(s@, '`') =~= old(out)@ + (seq!['`'] + doubled(
                s@,
                '`',
            )));
            assert((old(out)@ + (seq!['`'] + doubled(s@, '`'))).push('`') =~= old(out)@
                + quoted_ident(s@, mysql));
        }
    } else {
        crate::text::push_char(out, '"');
        push_doubled(out, s, '"');
        crate::text::push_char(out, '"');
        proof {
            assert(old(out)@.push('"') + doubled(s@, '"') =~= old(out)@ + (seq!['"'] + doubled(
                s@,
                '"',
            )));
            assert((old(out)@ + (seq!['"'] + doubled(s@, '"'))).push('"') =~= old(out)@
                + quoted_ident(s@, mysql));
        }
    }
}

/// `s` quoted as an identifier, as a fresh string.
pub fn quote_ident(s: &str, mysql: bool) -> (r: String)
    ensures
        r@ == quoted_ident(s@, mysql),
{
    let mut out = String::new();
    push_quoted_ident(&mut out, s, mysql);
    proof {
        assert(Seq::<char>::empty() + quoted_ident(s@, mysql) =~= quoted_ident(s@, mysql));
    }
    out
}

/// The condition text one enabled filter contributes. The shape follows the
/// operator; unknown operators fall back to equality.
pub open spec fn condition_spec(f: FilterConfig, db_type: Seq<char>) -> Seq<char> {
    let col = quoted_ident(f.column@, db_type == "mysql"@);
    let esc = doubled(f.value@, '\'');
    if f.operator@ == "="@ {
        col + " = '"@ + esc + "'"@
    } else if f.operator@ == "!="@ {
        col + " != '"@ + esc + "'"@
    } else if f.operator@ == ">"@ {
        col + " > '"@ + esc + "'"@
    } else if f.operator@ == "<"@ {
        col + " < '"@ + esc + "'"@
    } else if f.operator@ == ">="@ {
        col + " >= '"@ + esc + "'"@
    } else if f.operator@ == "<="@ {
        col + " <= '"@ + esc + "'"@
    } else if f.operator@ == "Contains"@ || f.operator@ == "LIKE"@ {
        col + " LIKE '%"@ + esc + "%'"@
    } else if f.operator@ == "Starts With"@ || f.operator@ == "ILIKE"@ {
        if db_type == "postgres"@ && f.operator@ == "ILIKE"@ {
            col + " ILIKE '"@ + esc + "%'"@
        } else {
            col + " LIKE '"@ + esc + "%'"@
        }
    } else if f.operator@ == "Ends With"@ {
        col + " LIKE '%"@ + esc + "'"@
    } else if f.operator@ == "IN"@ {
        col + " IN ("@ + f.value@ + ")"@
    } else if f.operator@ == "IS NULL"@ {
        col + " IS NULL"@
    } else if f.operator@ == "IS NOT NULL"@ {
        col + " IS NOT NULL"@
    } else {
        col + " = '"@ + esc + "'"@
    }
}

fn push_condition(out: &mut String, f: &FilterConfig, db_type: &str)
    ensures
        final(out)@ == old(out)@ + condition_spec(*f, db_type@),
{
    let mysql = str_eq(db_type, "mysql");
    let postgres = str_eq(db_type, "postgres");
    let col = quote_ident(f.column.as_str(), mysql);
    let esc = escape_doubling(f.value.as_str(), '\'');
    out.append(col.as_str());
    let op = f.operator.as_str();
    if str_eq(op, "=") {
        out.append(" = '");
        out.append(esc.as_str());
        out.append("'");
    } else if str_eq(op, "!=") {
        out.append(" != '");
        out.append(esc.as_str());
        out.append("'");
    } else if str_eq(op, ">") {
        out.append(" > '");
        out.append(esc.as_str());
        out.append("'");
    } else if str_eq(op, "<") {
        out.append(" < '");
        out.append(esc.as_str());
        out.append("'");
    } else if str_eq(op, ">=") {
        out.append(" >= '");
        out.append(esc.as_str());
        out.append("'");
    } else if str_eq(op, "<=") {
        out.append(" <= '");
        out.append(esc.as_str());
        out.append("'");
    } else if str_eq(op, "Contains") || str_eq(op, "LIKE") {
        out.append(" LIKE '%");
        out.append(esc.as_str());
        out.append("%'");
    } else if str_eq(op, "Starts With") || str_eq(op, "ILIKE") {
        if postgres && str_eq(op, "ILIKE") {
            out.append(" ILIKE '");
            out.append(esc.as_str());
            out.append("%'");
        } else {
            out.append(" LIKE '");
            out.append(esc.as_str());
            out.append("%'");
        }
    } else if str_eq(op, "Ends With") {
        out.append(" LIKE '%");
        out.append(esc.as_str());
        out.append("'");
    } else if str_eq(op, "IN") {
        out.append(" IN (");
        out.append(f.value.as_str());
        out.append(")");
    } else if str_eq(op, "IS NULL") {
        out.append(" IS NULL");
    } else if str_eq(op, "IS NOT NULL") {
        out.append(" IS NOT NULL");
    } else {
        out.append(" = '");
        out.append(esc.as_str());
        out.append("'");
    }
    proof {
        assert(final(out)@ =~= old(out)@ + condition_spec(*f, db_type@));
    }
}

/// The condition texts of the enabled filters, in order.
pub open spec fn enabled_conditions(filters: Seq<FilterConfig>, db_type: Seq<char>) -> Seq<
    Seq<char>,
>
    decreases filters.len(),
{
    if filters.len() == 0 {
        Seq::empty()
    } else {
        (if filters[0].enabled {
            seq![condition_spec(filters[0], db_type)]
        } else {
            Seq::empty()
        }) + enabled_conditions(filters.skip(1), db_type)
    }
}

proof fn lemma_enabled_conditions_push(filters: Seq<FilterConfig>, db_type: Seq<char>, f: FilterConfig)
    ensures
        enabled_conditions(filters.push(f), db_type) == enabled_conditions(filters, db_type) + (
        if f.enabled {
            seq![condition_spec(f, db_type)]
        } else {
            Seq::<Seq<char>>::empty()
        }),
    decreases filters.len(),
{
    let tail: Seq<Seq<char>> = if f.enabled {
        seq![condition_spec(f, db_type)]
    } else {
        Seq::empty()
    };
    if filters.len() == 0 {
        assert(filters.push(f).skip(1) =~= Seq::<FilterConfig>::empty());
        assert(filters.push(f)[0] == f);
        assert(enabled_conditions(Seq::<FilterConfig>::empty(), db_type) =~= Seq::<
            Seq<char>,
        >::empty());
        assert(enabled_conditions(filters.push(f), db_type) =~= tail);
        assert(enabled_conditions(filters, db_type) + tail =~= tail);
    } else {
        assert(filters.push(f).skip(1) =~= filters.skip(1).push(f));
        lemma_enabled_conditions_push(filters.skip(1), db_type, f);
        let head: Seq<Seq<char>> = if filters[0].enabled {
            seq![condition_spec(filters[0], db_type)]
        } else {
            Seq::empty()
        };
        assert(enabled_conditions(filters.push(f), db_type) =~= head + (enabled_conditions(
            filters.skip(1),
            db_type,
        ) + tail));
        assert(enabled_conditions(filters, db_type) + tail =~= head + (enabled_conditions(
            filters.skip(1),
            db_type,
        ) + tail));
    }
}

/// `parts` joined with `sep` between neighbours.
pub open spec fn joined(parts: Seq<Seq<char>>, sep: Seq<char>) -> Seq<char>
    decreases parts.len(),
{
    if parts.len() == 0 {
        Seq::empty()
    } else if parts.len() == 1 {
        parts[0]
    } else {
        parts[0] + sep + joined(parts.skip(1), sep)
    }
}

pub proof fn lemma_joined_push(parts: Seq<Seq<char>>, sep: Seq<char>, p: Seq<char>)
    ensures
        joined(parts.push(p), sep) == if parts.len() == 0 {
            p
        } else {
            joined(parts, sep) + sep + p
        },
    decreases parts.len(),
{
    if parts.len() == 0 {
        assert(parts.push(p)[0] == p);
        assert(joined(parts.push(p), sep) =~= p);
    } else if parts.len() == 1 {
        assert(parts.push(p).skip(1) =~= Seq::<Seq<char>>::empty().push(p));
        lemma_joined_push(Seq::<Seq<char>>::empty(), sep, p);
        assert(joined(parts.push(p), sep) =~= parts[0] + sep + p);
        assert(joined(parts, sep) + sep + p =~= parts[0] + sep + p);
    } else {
        assert(parts.push(p).skip(1) =~= parts.skip(1).push(p));
        lemma_joined_push(parts.skip(1), sep, p);
        assert(joined(parts.push(p), sep) =~= parts[0] + sep + (joined(parts.skip(1), sep) + sep
            + p));
        assert(joined(parts, sep) + sep + p =~= parts[0] + sep + (joined(parts.skip(1), sep) + sep
            + p));
    }
}

/// The WHERE clause composed from the enabled filters, or the empty string
/// when nothing contributes.
pub open spec fn where_clause_spec(filters: Seq<FilterConfig>, db_type: Seq<char>) -> Seq<char> {
    let conds = enabled_conditions(filters, db_type);
    if conds.len() == 0 {
        Seq::empty()
    } else {
        "WHERE "@ + joined(conds, " AND "@)
    }
}

/// Composes `WHERE c1 AND c2 AND ...` from the enabled filters. Disabled
/// filters contribute nothing; with no contribution the result is empty.
/// Every single quote inside a filter value is doubled; `IN` inserts its
/// value list verbatim.
pub fn build_where_clause(filters: Vec<FilterConfig>, db_type: &str) -> (r: String)
    ensures
        r@ == where_clause_spec(filters@, db_type@),
{
    let mut body = String::new();
    let mut found: bool = false;
    let n = filters.len();
    let mut i: usize = 0;
    proof {
        assert(filters@.take(0) =~= Seq::<FilterConfig>::empty());
        assert(enabled_conditions(filters@.take(0), db_type@) =~= Seq::<Seq<char>>::empty());
    }
    while i < n
        invariant
            i <= n,
            n == filters@.len(),
            body@ == joined(enabled_conditions(filters@.take(i as int), db_type@), " AND "@),
            found == (enabled_conditions(filters@.take(i as int), db_type@).len() > 0),
        decreases n - i,
    {
        let ghost prev = enabled_conditions(filters@.take(i as int), db_type@);
        proof {
            assert(filters@.take(i + 1) =~= filters@.take(i as int).push(filters@[i as int]));
            lemma_enabled_conditions_push(
                filters@.take(i as int),
                db_type@,
                filters@[i as int],
            );
        }
        if filters[i].enabled {
            if found {
                body.append(" AND ");
            }
            push_condition(&mut body, &filters[i], db_type);
            proof {
                assert(prev.push(condition_spec(filters@[i as int], db_type@))
                    =~= enabled_conditions(filters@.take(i + 1), db_type@));
                lemma_joined_push(prev, " AND "@, condition_spec(filters@[i as int], db_type@));
                if !found {
                    assert(body@ =~= joined(
                        enabled_conditions(filters@.take(i + 1), db_type@),
                        " AND "@,
                    ));
                } else {
                    assert(body@ =~= joined(
                        enabled_conditions(filters@.take(i + 1), db_type@),
                        " AND "@,
                    ));
                }
            }
            found = true;
        } else {
            proof {
                assert(enabled_conditions(filters@.take(i + 1), db_type@) =~= prev);
            }
        }
        i = i + 1;
    }
    proof {
        assert(filters@.take(n as int) =~= filters@);
    }
    if !found {
        String::new()
    } else {
        let mut out = String::new();
        out.append("WHERE ");
        out.append(body.as_str());
        proof {
            assert(Seq::<char>::empty() + "WHERE "@ + body@ =~= where_clause_spec(
                filters@,
                db_type@,
            ));
        }
        out
    }
}

/// The ORDER BY clause: the quoted column and a direction that is DESC only
/// when asked for, ASC otherwise; empty without a sort column.
pub open spec fn order_clause_spec(
    sort_column: Option<Seq<char>>,
    sort_direction: Option<Seq<char>>,
    db_type: Seq<char>,
) -> Seq<char> {
    match sort_column {
        Option::None => Seq::empty(),
        Option::Some(col) => {
            let dir: Seq<char> = match sort_direction {
                Option::Some(d) => if d == "DESC"@ {
                    "DESC"@
                } else {
                    "ASC"@
                },
                Option::None => "ASC"@,
            };
            "ORDER BY "@ + quoted_ident(col, db_type == "mysql"@) + " "@ + dir
        },
    }
}

pub open spec fn view_opt_str(o: Option<String>) -> Option<Seq<char>> {
    match o {
        Option::Some(s) => Option::Some(s@),
        Option::None => Option::None,
    }
}

/// Composes `ORDER BY <column> <direction>` with dialect quoting.
pub fn build_order_clause(
    sort_column: Option<String>,
    sort_direction: Option<String>,
    db_type: &str,
) -> (r: String)
    ensures
        r@ == order_clause_spec(view_opt_str(sort_column), view_opt_str(sort_direction), db_type@),
{
    match sort_column {
        Option::None => String::new(),
        Option::Some(col) => {
            let mysql = str_eq(db_type, "mysql");
            let mut out = String::new();
            out.append("ORDER BY ");
            push_quoted_ident(&mut out, col.as_str(), mysql);
            out.append(" ");
            let desc: bool = match &sort_direction {
                Option::Some(d) => str_eq(d.as_str(), "DESC"),
                Option::None => false,
            };
            if desc {
                out.append("DESC");
            } else {
                out.append("ASC");
            }
            proof {
                assert(out@ =~= order_clause_spec(
                    view_opt_str(Option::Some(col)),
                    view_opt_str(sort_direction),
                    db_type@,
                ));
            }
            out
        },
    }
}

/// The pagination rewrite: a trimmed SELECT is wrapped in a LIMIT/OFFSET
/// subquery; anything else passes through trimmed.
pub open spec fn wrap_pagination_spec(sql: Seq<char>, limit: nat, offset: nat) -> Seq<char> {
    let t = trimmed(sql);
    if is_select_prefix(t) {
        "SELECT * FROM ("@ + without_trailing(t, ';') + ") AS _q LIMIT "@ + dec_str(limit)
            + " OFFSET "@ + dec_str(offset)
    } else {
        t
    }
}

/// Wraps a SELECT as `SELECT * FROM (<sql>) AS _q LIMIT <limit> OFFSET
/// <offset>`; other statements pass through trimmed.
pub fn wrap_pagination(sql: &str, limit: u32, offset: u32) -> (r: String)
    ensures
        r@ == wrap_pagination_spec(sql@, limit as nat, offset as nat),
{
    let t = trim_spaces(sql);
    if starts_with_select(t.as_str()) {
        let inner = strip_trailing(t.as_str(), ';');
        let mut out = String::new();
        out.append("SELECT * FROM (");
        out.append(inner.as_str());
        out.append(") AS _q LIMIT ");
        push_dec_u64(&mut out, limit as u64);
        out.append(" OFFSET ");
        push_dec_u64(&mut out, offset as u64);
        proof {
            assert(out@ =~= wrap_pagination_spec(sql@, limit as nat, offset as nat));
        }
        out
    } else {
        t
    }
}

/// The COUNT rewrite: a trimmed SELECT becomes a COUNT(*) subquery; anything
/// else yields the empty string, meaning no count is attempted.
pub open spec fn wrap_count_spec(sql: Seq<char>) -> Seq<char> {
    let t = trimmed(sql);
    if is_select_prefix(t) {
        "SELECT COUNT(*) FROM ("@ + without_trailing(t, ';') + ") AS _q"@
    } else {
        Seq::empty()
    }
}

/// Wraps a SELECT as `SELECT COUNT(*) FROM (<sql>) AS _q`; for other
/// statements the result is empty and no count is run.
pub fn wrap_count(sql: &str) -> (r: String)
    ensures
        r@ == wrap_count_spec(sql@),
{
    let t = trim_spaces(sql);
    if starts_with_select(t.as_str()) {
        let inner = strip_trailing(t.as_str(), ';');
        let mut out = String::new();
        out.append("SELECT COUNT(*) FROM (");
        out.append(inner.as_str());
        out.append(") AS _q");
        proof {
            assert(out@ =~= wrap_count_spec(sql@));
        }
        out
    } else {
        String::new()
    }
}

/// The table scan issued by table browsing: quoted table, optional WHERE and
/// ORDER clauses, and the LIMIT/OFFSET window.
pub open spec fn table_scan_sql_spec(
    table: Seq<char>,
    where_clause: Seq<char>,
    order_clause: Seq<char>,
    limit: nat,
    offset: nat,
    mysql: bool,
) -> Seq<char> {
    "SELECT * FROM "@ + quoted_ident(table, mysql) + " "@ + where_clause + " "@ + order_clause
        + " LIMIT "@ + dec_str(limit) + " OFFSET "@ + dec_str(offset) + ";"@
}

/// Composes the table scan for `get_table_data`.
pub fn table_scan_sql(
    table: &str,
    where_clause: &str,
    order_clause: &str,
    limit: u32,
    offset: u32,
    mysql: bool,
) -> (r: String)
    ensures
        r@ == table_scan_sql_spec(
            table@,
            where_clause@,
            order_clause@,
            limit as nat,
            offset as nat,
            mysql,
        ),
{
    let mut out = String::new();
    out.append("SELECT * FROM ");
    push_quoted_ident(&mut out, table, mysql);
    out.append(" ");
    out.append(where_clause);
    out.append(" ");
    out.append(order_clause);
    out.append(" LIMIT ");
    push_dec_u64(&mut out, limit as u64);
    out.append(" OFFSET ");
    push_dec_u64(&mut out, offset as u64);
    out.append(";");
    proof {
        assert(out@ =~= table_scan_sql_spec(
            table@,
            where_clause@,
            order_clause@,
            limit as nat,
            offset as nat,
            mysql,
        ));
    }
    out
}

/// The exact row count of a table under the given filters.
pub open spec fn table_count_sql_spec(
    table: Seq<char>,
    where_clause: Seq<char>,
    mysql: bool,
) -> Seq<char> {
    "SELECT COUNT(*) FROM "@ + quoted_ident(table, mysql) + " "@ + where_clause + ";"@
}

/// Composes the COUNT query for `get_table_count`.
pub fn table_count_sql(table: &str, where_clause: &str, mysql: bool) -> (r: String)
    ensures
        r@ == table_count_sql_spec(table@, where_clause@, mysql),
{
    let mut out = String::new();
    out.append("SELECT COUNT(*) FROM ");
    push_quoted_ident(&mut out, table, mysql);
    out.append(" ");
    out.append(where_clause);
    out.append(";");
    proof {
        assert(out@ =~= table_count_sql_spec(table@, where_clause@, mysql));
    }
    out
}

/// The CREATE DATABASE statement; the name is quoted for the dialect but,
/// as in the command it serves, not escaped.
pub open spec fn create_database_sql_spec(name: Seq<char>, mysql: bool) -> Seq<char> {
    if mysql {
        "CREATE DATABASE `"@ + name + "`"@
    } else {
        "CREATE DATABASE \""@ + name + "\""@
    }
}

/// Composes the per-dialect CREATE DATABASE statement.
pub fn create_database_sql(name: &str, mysql: bool) -> (r: String)
    ensures
        r@ == create_database_sql_spec(name@, mysql),
{
    let mut out = String::new();
    if mysql {
        out.append("CREATE DATABASE `");
        out.append(name);
        out.append("`");
    } else {
        out.append("CREATE DATABASE \"");
        out.append(name);
        out.append("\"");
    }
    proof {
        assert(out@ =~= create_database_sql_spec(name@, mysql));
    }
    out
}

} // verus!
