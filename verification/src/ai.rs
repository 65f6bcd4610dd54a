//! Text-to-SQL support: the system prompt handed to the completion API,
//! the schema context built from table structures, and the cleanup of the
//! model's answer. The HTTPS call is the gateway's business; what is sent
//! and how the answer is interpreted is decided here.
use vstd::prelude::*;

use crate::sqlbuild::{joined, lemma_joined_push};
use crate::import::strings_view;
use crate::text::{has_prefix, starts_with, trim_spaces, trimmed};
use crate::types::TableColumnStructure;

verus! {

/// `s` with every leading repetition of `p` removed.
pub open spec fn strip_prefix_rep(s: Seq<char>, p: Seq<char>) -> Seq<char>
    decreases s.len(),
{
    if p.len() > 0 && has_prefix(s, p) {
        strip_prefix_rep(s.skip(p.len() as int), p)
    } else {
        s
    }
}

pub open spec fn has_suffix(s: Seq<char>, p: Seq<char>) -> bool {
    s.len() >= p.len() && s.skip(s.len() - p.len()) == p
}

/// `s` with every trailing repetition of `p` removed.
pub open spec fn strip_suffix_rep(s: Seq<char>, p: Seq<char>) -> Seq<char>
    decreases s.len(),
{
    if p.len() > 0 && has_suffix(s, p) {
        strip_suffix_rep(s.take(s.len() - p.len()), p)
    } else {
        s
    }
}

/// What remains of a model answer once code fences are peeled off: the
/// trimmed text, any `sql` fence openers, then bare fence markers at both
/// ends, trimmed again.
pub open spec fn cleaned_sql_spec(s: Seq<char>) -> Seq<char> {
    trimmed(
        strip_suffix_rep(
            strip_prefix_rep(strip_prefix_rep(trimmed(s), "```sql"@), "```"@),
            "```"@,
        ),
    )
}

fn ends_with(s: &str, p: &str) -> (r: bool)
    ensures
        r == has_suffix(s@, p@),
{
    let n = s.unicode_len();
    let m = p.unicode_len();
    if m > n {
        return false;
    }
    let mut i: usize = 0;
    while i < m
        invariant
            i <= m,
            m <= n,
            n == s@.len(),
            m == p@.len(),
            forall|j: int| 0 <= j < i ==> s@[n - m + j] == p@[j],
        decreases m - i,
    {
        if s.get_char(n - m + i) != p.get_char(i) {
            proof {
                assert(s@.skip(n - m)[i as int] != p@[i as int]);
            }
            return false;
        }
        i = i + 1;
    }
    proof {
        assert(s@.skip(n - m) =~= p@);
    }
    true
}

fn strip_prefix_loop(s: String, p: &str) -> (r: String)
    requires
        p@.len() > 0,
    ensures
        r@ == strip_prefix_rep(s@, p@),
{
    let m = p.unicode_len();
    let mut cur = s;
    while starts_with(cur.as_str(), p)
        invariant
            m == p@.len(),
            m > 0,
            strip_prefix_rep(cur@, p@) == strip_prefix_rep(s@, p@),
        decreases cur@.len(),
    {
        let n = cur.unicode_len();
        let rest = cur.as_str().substring_char(m, n);
        let mut next = String::new();
        next.append(rest);
        proof {
            assert(next@ =~= cur@.skip(m as int));
        }
        cur = next;
    }
    cur
}

fn strip_suffix_loop(s: String, p: &str) -> (r: String)
    requires
        p@.len() > 0,
    ensures
        r@ == strip_suffix_rep(s@, p@),
{
    let m = p.unicode_len();
    let mut cur = s;
    while ends_with(cur.as_str(), p)
        invariant
            m == p@.len(),
            m > 0,
            strip_suffix_rep(cur@, p@) == strip_suffix_rep(s@, p@),
        decreases cur@.len(),
    {
        let n = cur.unicode_len();
        let head = cur.as_str().substring_char(0, n - m);
        let mut next = String::new();
        next.append(head);
        proof {
            assert(next@ =~= cur@.take(cur@.len() - m));
        }
        cur = next;
    }
    cur
}

/// Peels markdown code fences off a model answer and trims it.
pub fn clean_generated_sql(s: &str) -> (r: String)
    ensures
        r@ == cleaned_sql_spec(s@),
{
    proof {
        reveal_strlit("```sql");
        reveal_strlit("```");
    }
    let t = trim_spaces(s);
    let a = strip_prefix_loop(t, "```sql");
    let b = strip_prefix_loop(a, "```");
    let c = strip_suffix_loop(b, "```");
    trim_spaces(c.as_str())
}

/// One column's line in the schema context.
pub open spec fn col_line_spec(c: TableColumnStructure) -> Seq<char> {
    "  "@ + c.name@ + " "@ + c.data_type@ + (if c.is_primary_key {
        " PRIMARY KEY"@
    } else {
        Seq::empty()
    }) + (if c.is_nullable {
        " NULL"@
    } else {
        " NOT NULL"@
    })
}

pub open spec fn col_lines(cols: Seq<TableColumnStructure>) -> Seq<Seq<char>> {
    cols.map_values(|c: TableColumnStructure| col_line_spec(c))
}

/// One table's block in the schema context: its name and one line per
/// column.
pub fn table_schema_text(table: &str, columns: &Vec<TableColumnStructure>) -> (r: String)
    ensures
        r@ == "TABLE "@ + table@ + ":\n"@ + joined(col_lines(columns@), "\n"@),
{
    let mut out = String::new();
    out.append("TABLE ");
    out.append(table);
    out.append(":\n");
    let ghost mid = out@;
    let n = columns.len();
    let mut i: usize = 0;
    proof {
        assert(col_lines(columns@.take(0)) =~= Seq::<Seq<char>>::empty());
        assert(mid + joined(col_lines(columns@.take(0)), "\n"@) =~= mid);
    }
    while i < n
        invariant
            i <= n,
            n == columns@.len(),
            out@ == mid + joined(col_lines(columns@.take(i as int)), "\n"@),
        decreases n - i,
    {
        if i > 0 {
            out.append("\n");
        }
        out.append("  ");
        out.append(columns[i].name.as_str());
        out.append(" ");
        out.append(columns[i].data_type.as_str());
        if columns[i].is_primary_key {
            out.append(" PRIMARY KEY");
        }
        if columns[i].is_nullable {
            out.append(" NULL");
        } else {
            out.append(" NOT NULL");
        }
        proof {
            assert(col_lines(columns@.take(i + 1)) =~= col_lines(columns@.take(i as int)).push(
                col_line_spec(columns@[i as int]),
            ));
            lemma_joined_push(
                col_lines(columns@.take(i as int)),
                "\n"@,
                col_line_spec(columns@[i as int]),
            );
            assert(out@ =~= mid + joined(col_lines(columns@.take(i + 1)), "\n"@));
        }
        i = i + 1;
    }
    proof {
        assert(columns@.take(n as int) =~= columns@);
        assert(out@ =~= "TABLE "@ + table@ + ":\n"@ + joined(col_lines(columns@), "\n"@));
    }
    out
}

/// The block written for a table whose structure could not be fetched.
pub fn table_schema_unavailable(table: &str) -> (r: String)
    ensures
        r@ == "TABLE "@ + table@ + " (columns unavailable)"@,
{
    let mut out = String::new();
    out.append("TABLE ");
    out.append(table);
    out.append(" (columns unavailable)");
    proof {
        assert(out@ =~= "TABLE "@ + table@ + " (columns unavailable)"@);
    }
    out
}

/// Joins the tables' blocks with blank lines.
pub fn join_schema_parts(parts: &Vec<String>) -> (r: String)
    ensures
        r@ == joined(strings_view(parts@), "\n\n"@),
{
    let mut out = String::new();
    let n = parts.len();
    let mut i: usize = 0;
    proof {
        assert(strings_view(parts@.take(0)) =~= Seq::<Seq<char>>::empty());
        assert(Seq::<char>::empty() + joined(strings_view(parts@.take(0)), "\n\n"@)
            =~= Seq::<char>::empty());
    }
    while i < n
        invariant
            i <= n,
            n == parts@.len(),
            out@ == joined(strings_view(parts@.take(i as int)), "\n\n"@),
        decreases n - i,
    {
        if i > 0 {
            out.append("\n\n");
        }
        out.append(parts[i].as_str());
        proof {
            assert(strings_view(parts@.take(i + 1)) =~= strings_view(parts@.take(i as int)).push(
                parts@[i as int]@,
            ));
            lemma_joined_push(strings_view(parts@.take(i as int)), "\n\n"@, parts@[i as int]@);
            assert(out@ =~= joined(strings_view(parts@.take(i + 1)), "\n\n"@));
        }
        i = i + 1;
    }
    proof {
        assert(parts@.take(n as int) =~= parts@);
    }
    out
}

/// The system prompt of the SQL generator, for one dialect and one schema
/// context.
pub fn build_system_prompt(db_type: &str, schema_context: &str) -> (r: String)
    ensures
        r@ == "You are an expert "@ + db_type@
            + " SQL query generator. Given the database schema below, convert the user's natural language request into a valid SQL query.\n\nRULES:\n- Output ONLY the raw SQL query, nothing else\n- No markdown formatting, no code fences, no explanations\n- Use the exact table and column names from the schema\n- Write syntactically correct "@
            + db_type@ + " SQL\n\nDATABASE SCHEMA:\n"@ + schema_context@,
{
    let mut out = String::new();
    out.append("You are an expert ");
    out.append(db_type);
    out.append(
        " SQL query generator. Given the database schema below, convert the user's natural language request into a valid SQL query.\n\nRULES:\n- Output ONLY the raw SQL query, nothing else\n- No markdown formatting, no code fences, no explanations\n- Use the exact table and column names from the schema\n- Write syntactically correct ",
    );
    out.append(db_type);
    out.append(" SQL\n\nDATABASE SCHEMA:\n");
    out.append(schema_context);
    proof {
        assert(out@ =~= "You are an expert "@ + db_type@
            + " SQL query generator. Given the database schema below, convert the user's natural language request into a valid SQL query.\n\nRULES:\n- Output ONLY the raw SQL query, nothing else\n- No markdown formatting, no code fences, no explanations\n- Use the exact table and column names from the schema\n- Write syntactically correct "@
            + db_type@ + " SQL\n\nDATABASE SCHEMA:\n"@ + schema_context@);
    }
    out
}

} // verus!
