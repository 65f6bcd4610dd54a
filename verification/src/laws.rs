//! The library's standing laws, stated once and proved for every input:
//! text values pass through the mapper untouched, the WHERE builder's
//! escaping exactly doubles the quotes, and pagination windows reassemble
//! the full result.
use vstd::prelude::*;

use crate::text::doubled;
use crate::types::JsonVal;
use crate::value::{
    is_bool_name, is_float_name, is_int_name, is_text_name, map_mysql_spec, map_pg_spec,
    map_sqlite_spec, RawVal,
};

verus! {

// ---- text values pass through unchanged -----------------------------------
/// A string value of a text-classified Postgres column is emitted exactly
/// as it is. The earlier branches of the mapper are excluded by the
/// hypotheses: a name that also looks boolean, integral or floating is
/// mapped by that branch instead.
pub proof fn lemma_text_value_unchanged_postgres(name: Seq<char>, s: Seq<char>)
    requires
        is_text_name(name),
        !is_bool_name(name),
        name != "bit"@,
        name != "uuid"@,
        !is_int_name(name),
        !is_float_name(name),
    ensures
        map_pg_spec(name, RawVal::Text(s)) == JsonVal::Str(s),
{
}

/// The same for MySQL; a `TINYINT(1)` column is boolean and excluded.
pub proof fn lemma_text_value_unchanged_mysql(name: Seq<char>, full: Seq<char>, s: Seq<char>)
    requires
        is_text_name(name),
        !(name == "tinyint"@ && crate::text::contains_sub(full, "TINYINT(1)"@)),
        !is_int_name(name),
        !is_float_name(name),
    ensures
        map_mysql_spec(name, full, RawVal::Text(s)) == JsonVal::Str(s),
{
}

/// The same for SQLite.
pub proof fn lemma_text_value_unchanged_sqlite(name: Seq<char>, s: Seq<char>)
    requires
        is_text_name(name),
        !is_bool_name(name),
        !crate::text::contains_sub(name, "int"@),
        name != "integer"@,
        !crate::text::contains_sub(name, "float"@),
        name != "real"@,
        name != "double"@,
    ensures
        map_sqlite_spec(name, RawVal::Text(s)) == JsonVal::Str(s),
{
}

// ---- quote doubling -------------------------------------------------------
pub open spec fn count_char(s: Seq<char>, c: char) -> nat
    decreases s.len(),
{
    if s.len() == 0 {
        0
    } else {
        (if s[0] == c {
            1nat
        } else {
            0nat
        }) + count_char(s.skip(1), c)
    }
}

proof fn lemma_count_concat(a: Seq<char>, b: Seq<char>, c: char)
    ensures
        count_char(a + b, c) == count_char(a, c) + count_char(b, c),
    decreases a.len(),
{
    if a.len() == 0 {
        assert(a + b =~= b);
    } else {
        assert((a + b).skip(1) =~= a.skip(1) + b);
        assert((a + b)[0] == a[0]);
        lemma_count_concat(a.skip(1), b, c);
    }
}

/// The escaping of filter values exactly doubles the escaped quote: the
/// emitted text holds twice as many of them as the value did.
pub proof fn lemma_escaping_doubles_quotes(s: Seq<char>, q: char)
    ensures
        count_char(doubled(s, q), q) == 2 * count_char(s, q),
    decreases s.len(),
{
    if s.len() > 0 {
        lemma_escaping_doubles_quotes(s.skip(1), q);
        if s[0] == q {
            lemma_count_concat(seq![q, q], doubled(s.skip(1), q), q);
            assert(seq![q, q].skip(1) =~= seq![q]);
            assert(seq![q].skip(1) =~= Seq::<char>::empty());
            assert(count_char(Seq::<char>::empty(), q) == 0);
            assert(count_char(seq![q], q) == 1);
            assert(count_char(seq![q, q], q) == 2);
        } else {
            lemma_count_concat(seq![s[0]], doubled(s.skip(1), q), q);
            assert(seq![s[0]].skip(1) =~= Seq::<char>::empty());
            assert(count_char(Seq::<char>::empty(), q) == 0);
            assert(count_char(seq![s[0]], q) == 0);
        }
    }
}

/// Every other character survives the escaping untouched: its count is
/// unchanged.
pub proof fn lemma_escaping_keeps_others(s: Seq<char>, q: char, c: char)
    requires
        c != q,
    ensures
        count_char(doubled(s, q), c) == count_char(s, c),
    decreases s.len(),
{
    if s.len() > 0 {
        lemma_escaping_keeps_others(s.skip(1), q, c);
        if s[0] == q {
            lemma_count_concat(seq![q, q], doubled(s.skip(1), q), c);
            assert(seq![q, q].skip(1) =~= seq![q]);
            assert(seq![q].skip(1) =~= Seq::<char>::empty());
            assert(count_char(Seq::<char>::empty(), c) == 0);
            assert(count_char(seq![q], c) == 0);
            assert(count_char(seq![q, q], c) == 0);
        } else {
            lemma_count_concat(seq![s[0]], doubled(s.skip(1), q), c);
            assert(seq![s[0]].skip(1) =~= Seq::<char>::empty());
            assert(count_char(Seq::<char>::empty(), c) == 0);
        }
    }
}

// ---- pagination reassembly ------------------------------------------------
/// The window of rows page `p` of size `k` shows, in the model where
/// LIMIT/OFFSET slice a stable result: rows `p*k` up to `p*k + k`, clipped
/// to the result's length.
pub open spec fn page_slice<A>(rows: Seq<A>, p: nat, k: nat) -> Seq<A> {
    let lo: int = if p * k <= rows.len() {
        (p * k) as int
    } else {
        rows.len() as int
    };
    let hi: int = if p * k + k <= rows.len() {
        (p * k + k) as int
    } else {
        rows.len() as int
    };
    rows.subrange(lo, hi)
}

/// No page shows more than the page size.
pub proof fn lemma_page_within_limit<A>(rows: Seq<A>, p: nat, k: nat)
    ensures
        page_slice(rows, p, k).len() <= k,
{
}

pub open spec fn pages_concat<A>(rows: Seq<A>, n: nat, k: nat) -> Seq<A>
    decreases n,
{
    if n == 0 {
        Seq::empty()
    } else {
        pages_concat(rows, (n - 1) as nat, k) + page_slice(rows, (n - 1) as nat, k)
    }
}

proof fn lemma_pages_prefix<A>(rows: Seq<A>, n: nat, k: nat)
    requires
        k > 0,
    ensures
        pages_concat(rows, n, k) == rows.take(
            if n * k <= rows.len() {
                (n * k) as int
            } else {
                rows.len() as int
            },
        ),
    decreases n,
{
    if n == 0 {
        assert(rows.take(0) =~= Seq::<A>::empty());
        assert(pages_concat(rows, 0, k) =~= Seq::<A>::empty());
    } else {
        let m = (n - 1) as nat;
        lemma_pages_prefix(rows, m, k);
        assert(m * k + k == n * k) by (nonlinear_arith)
            requires
                m == n - 1,
                n >= 1,
        ;
        assert(m * k <= n * k) by (nonlinear_arith)
            requires
                m == n - 1,
                n >= 1,
        ;
        let prev: int = if m * k <= rows.len() {
            (m * k) as int
        } else {
            rows.len() as int
        };
        let cur: int = if n * k <= rows.len() {
            (n * k) as int
        } else {
            rows.len() as int
        };
        assert(rows.take(prev) + page_slice(rows, m, k) =~= rows.take(cur));
    }
}

/// Consecutive pages of a stable result, concatenated, reassemble the full
/// result once enough pages are taken: with `n * k` at or past the length,
/// the first `n` pages of size `k` are the whole sequence, in order.
pub proof fn lemma_pagination_round_trip<A>(rows: Seq<A>, n: nat, k: nat)
    requires
        k > 0,
        n * k >= rows.len(),
    ensures
        pages_concat(rows, n, k) == rows,
{
    lemma_pages_prefix(rows, n, k);
    assert(rows.take(rows.len() as int) =~= rows);
}

} // verus!
