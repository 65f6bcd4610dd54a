//! Streaming import logic: the statement splitter that carves a SQL dump
//! into executable statements while respecting string literals, and the
//! column-mapping and statement composition of the CSV importer. Files are
//! read outside; lines and records arrive here as plain values.
use vstd::prelude::*;

use crate::sqlbuild::{joined, lemma_joined_push, quoted_ident, push_quoted_ident};
use crate::text::{
    dec_str, has_prefix, push_char, push_dec_u64, starts_with, str_eq, trim_spaces, trimmed,
};

verus! {

/// Import options for a CSV file; the mapping pairs a CSV column, by name
/// or by decimal index, with the database column it fills.
#[derive(Debug)]
pub struct CsvImportOptions {
    pub file_path: String,
    pub table_name: String,
    pub create_table_if_missing: bool,
    pub column_mapping: Vec<(String, String)>,
    pub has_header: bool,
    pub delimiter: char,
    pub skip_rows: u32,
    pub batch_size: usize,
}

/// Import options for a SQL dump.
#[derive(Debug)]
pub struct SqlImportOptions {
    pub file_path: String,
    pub execute_in_transaction: bool,
}

pub open spec fn strings_view(s: Seq<String>) -> Seq<Seq<char>> {
    s.map_values(|x: String| x@)
}

// ---- the SQL dump statement splitter --------------------------------------
/// The splitter's mathematical state: inside a string literal or not, the
/// quote that opened it, the statement being accumulated, and the
/// statements already carved out.
#[verifier::ext_equal]
pub ghost struct SplitState {
    pub in_string: bool,
    pub quote: char,
    pub cur: Seq<char>,
    pub out: Seq<Seq<char>>,
}

/// One character of dump text: quote characters toggle string state —
/// backticks only for MySQL — and a semicolon outside any string ends the
/// current statement, which is kept when its trimmed text is non-empty.
pub open spec fn split_char_step(st: SplitState, c: char, mysql: bool) -> SplitState {
    let toggles = c == '\'' || c == '"' || (c == '`' && mysql);
    let st1 = if toggles {
        if st.in_string {
            if c == st.quote {
                SplitState { in_string: false, quote: st.quote, cur: st.cur, out: st.out }
            } else {
                st
            }
        } else {
            SplitState { in_string: true, quote: c, cur: st.cur, out: st.out }
        }
    } else {
        st
    };
    let st2 = SplitState {
        in_string: st1.in_string,
        quote: st1.quote,
        cur: st1.cur.push(c),
        out: st1.out,
    };
    if c == ';' && !st2.in_string {
        let t = trimmed(st2.cur);
        SplitState {
            in_string: st2.in_string,
            quote: st2.quote,
            cur: Seq::empty(),
            out: if t.len() > 0 {
                st2.out.push(t)
            } else {
                st2.out
            },
        }
    } else {
        st2
    }
}

pub open spec fn split_chars(st: SplitState, s: Seq<char>, mysql: bool) -> SplitState
    decreases s.len(),
{
    if s.len() == 0 {
        st
    } else {
        split_char_step(split_chars(st, s.drop_last(), mysql), s.last(), mysql)
    }
}

/// Whether a dump line is skipped outright: its trimmed text opens a
/// comment.
pub open spec fn is_comment_line(line: Seq<char>) -> bool {
    has_prefix(trimmed(line), "--"@) || has_prefix(trimmed(line), "/*"@)
}

/// One dump line: comments contribute nothing; other lines run through the
/// character machine and close with a newline in the accumulator.
pub open spec fn feed_line_spec(st: SplitState, line: Seq<char>, mysql: bool) -> SplitState {
    if is_comment_line(line) {
        st
    } else {
        let st2 = split_chars(st, line, mysql);
        SplitState {
            in_string: st2.in_string,
            quote: st2.quote,
            cur: st2.cur.push('\n'),
            out: st2.out,
        }
    }
}

/// End of the dump: whatever trimmed text remains is one final statement.
pub open spec fn finish_split_spec(st: SplitState) -> Seq<Seq<char>> {
    if trimmed(st.cur).len() > 0 {
        st.out.push(trimmed(st.cur))
    } else {
        st.out
    }
}

/// The statement splitter a SQL dump is fed through, line by line.
pub struct SqlSplitter {
    mysql: bool,
    in_string: bool,
    quote_char: char,
    current: String,
    statements: Vec<String>,
}

impl SqlSplitter {
    pub closed spec fn state(&self) -> SplitState {
        SplitState {
            in_string: self.in_string,
            quote: self.quote_char,
            cur: self.current@,
            out: strings_view(self.statements@),
        }
    }

    pub closed spec fn is_mysql(&self) -> bool {
        self.mysql
    }

    pub fn new(mysql: bool) -> (r: Self)
        ensures
            r.is_mysql() == mysql,
            r.state() == (SplitState {
                in_string: false,
                quote: ' ',
                cur: Seq::<char>::empty(),
                out: Seq::<Seq<char>>::empty(),
            }),
    {
        let r = SqlSplitter {
            mysql,
            in_string: false,
            quote_char: ' ',
            current: String::new(),
            statements: Vec::new(),
        };
        proof {
            assert(strings_view(r.statements@) =~= Seq::<Seq<char>>::empty());
            assert(r.state() =~= (SplitState {
                in_string: false,
                quote: ' ',
                cur: Seq::<char>::empty(),
                out: Seq::<Seq<char>>::empty(),
            }));
        }
        r
    }

    /// Feeds one line of the dump.
    pub fn feed_line(&mut self, line: &str)
        ensures
            final(self).is_mysql() == old(self).is_mysql(),
            final(self).state() == feed_line_spec(old(self).state(), line@, old(self).is_mysql()),
    {
        let t = trim_spaces(line);
        if starts_with(t.as_str(), "--") || starts_with(t.as_str(), "/*") {
            return ;
        }
        let n = line.unicode_len();
        let mut i: usize = 0;
        proof {
            assert(line@.take(0) =~= Seq::<char>::empty());
            assert(split_chars(old(self).state(), line@.take(0), self.mysql) == old(self).state());
        }
        while i < n
            invariant
                i <= n,
                n == line@.len(),
                self.mysql == old(self).is_mysql(),
                self.state() == split_chars(old(self).state(), line@.take(i as int), self.mysql),
            decreases n - i,
        {
            let ghost pre = self.state();
            let c = line.get_char(i);
            let toggles = c == '\'' || c == '"' || (c == '`' && self.mysql);
            if toggles {
                if self.in_string {
                    if c == self.quote_char {
                        self.in_string = false;
                    }
                } else {
                    self.in_string = true;
                    self.quote_char = c;
                }
            }
            push_char(&mut self.current, c);
            if c == ';' && !self.in_string {
                let stmt = trim_spaces(self.current.as_str());
                if stmt.unicode_len() > 0 {
                    let ghost before = self.statements@.drop_last();
                    self.statements.push(stmt);
                    proof {
                        assert(strings_view(self.statements@) =~= strings_view(
                            self.statements@.drop_last(),
                        ).push(self.statements@.last()@));
                    }
                }
                self.current = String::new();
            }
            proof {
                assert(line@.take(i + 1).drop_last() =~= line@.take(i as int));
                assert(line@.take(i + 1).last() == line@[i as int]);
                assert(self.state() =~= split_char_step(pre, line@[i as int], self.mysql));
            }
            i = i + 1;
        }
        push_char(&mut self.current, '\n');
        proof {
            assert(line@.take(n as int) =~= line@);
            assert(self.state() =~= feed_line_spec(
                old(self).state(),
                line@,
                old(self).is_mysql(),
            ));
        }
    }

    /// Hands over the statements completed so far and forgets them, so a
    /// caller can execute the dump as it is read.
    pub fn take_statements(&mut self) -> (r: Vec<String>)
        ensures
            final(self).is_mysql() == old(self).is_mysql(),
            strings_view(r@) == old(self).state().out,
            final(self).state() == (SplitState {
                in_string: old(self).state().in_string,
                quote: old(self).state().quote,
                cur: old(self).state().cur,
                out: Seq::<Seq<char>>::empty(),
            }),
    {
        let mut out: Vec<String> = Vec::new();
        core::mem::swap(&mut out, &mut self.statements);
        proof {
            assert(strings_view(self.statements@) =~= Seq::<Seq<char>>::empty());
            assert(final(self).state() =~= (SplitState {
                in_string: old(self).state().in_string,
                quote: old(self).state().quote,
                cur: old(self).state().cur,
                out: Seq::<Seq<char>>::empty(),
            }));
        }
        out
    }

    /// Ends the dump and hands back every statement, in order.
    pub fn finish(self) -> (r: Vec<String>)
        ensures
            strings_view(r@) == finish_split_spec(self.state()),
    {
        let SqlSplitter { current, mut statements, .. } = self;
        let stmt = trim_spaces(current.as_str());
        if stmt.unicode_len() > 0 {
            statements.push(stmt);
            proof {
                assert(strings_view(statements@) =~= finish_split_spec(self.state()));
            }
        } else {
            proof {
                assert(strings_view(statements@) =~= finish_split_spec(self.state()));
            }
        }
        statements
    }
}


// ---- decimal numerals -----------------------------------------------------
pub open spec fn char_digit(c: char) -> int {
    if c == '0' {
        0
    } else if c == '1' {
        1
    } else if c == '2' {
        2
    } else if c == '3' {
        3
    } else if c == '4' {
        4
    } else if c == '5' {
        5
    } else if c == '6' {
        6
    } else if c == '7' {
        7
    } else if c == '8' {
        8
    } else if c == '9' {
        9
    } else {
        -1
    }
}

pub open spec fn is_digit_char(c: char) -> bool {
    char_digit(c) >= 0
}

/// The value of a digit string, most significant first.
pub open spec fn digits_value(s: Seq<char>) -> int
    decreases s.len(),
{
    if s.len() == 0 {
        0
    } else {
        digits_value(s.drop_last()) * 10 + char_digit(s.last())
    }
}

/// The digits of a numeral: everything after an optional leading plus.
pub open spec fn numeral_body(s: Seq<char>) -> Seq<char> {
    if s.len() > 0 && s[0] == '+' {
        s.skip(1)
    } else {
        s
    }
}

pub open spec fn is_numeral(s: Seq<char>) -> bool {
    numeral_body(s).len() > 0 && forall|i: int|
        0 <= i < numeral_body(s).len() ==> is_digit_char(#[trigger] numeral_body(s)[i])
}

proof fn lemma_digits_nonneg(s: Seq<char>)
    requires
        forall|i: int| 0 <= i < s.len() ==> is_digit_char(#[trigger] s[i]),
    ensures
        digits_value(s) >= 0,
    decreases s.len(),
{
    if s.len() > 0 {
        lemma_digits_nonneg(s.drop_last());
    }
}

proof fn lemma_digits_prefix(s: Seq<char>, j: int)
    requires
        0 <= j <= s.len(),
        forall|i: int| 0 <= i < s.len() ==> is_digit_char(#[trigger] s[i]),
    ensures
        digits_value(s.take(j)) <= digits_value(s),
    decreases s.len() - j,
{
    if j < s.len() {
        lemma_digits_nonneg(s.drop_last());
        assert(digits_value(s) == digits_value(s.drop_last()) * 10 + char_digit(s.last()));
        assert(digits_value(s.drop_last()) * 10 >= digits_value(s.drop_last()));
        assert(s.drop_last().take(j) =~= s.take(j));
        lemma_digits_prefix(s.drop_last(), j);
    } else {
        assert(s.take(j) =~= s);
    }
}

fn char_digit_exec(c: char) -> (r: Option<u8>)
    ensures
        match r {
            Option::Some(d) => char_digit(c) == d as int && d < 10,
            Option::None => char_digit(c) < 0,
        },
{
    match c {
        '0' => Option::Some(0),
        '1' => Option::Some(1),
        '2' => Option::Some(2),
        '3' => Option::Some(3),
        '4' => Option::Some(4),
        '5' => Option::Some(5),
        '6' => Option::Some(6),
        '7' => Option::Some(7),
        '8' => Option::Some(8),
        '9' => Option::Some(9),
        _ => Option::None,
    }
}

/// Parses a decimal index as the column mapping admits it: optional leading
/// plus, then digits; refused when empty, when any other character occurs,
/// or when the value does not fit.
pub fn parse_usize(s: &str) -> (r: Option<usize>)
    ensures
        match r {
            Option::Some(n) => is_numeral(s@) && n == digits_value(numeral_body(s@))
                && digits_value(numeral_body(s@)) <= usize::MAX,
            Option::None => !(is_numeral(s@) && digits_value(numeral_body(s@)) <= usize::MAX),
        },
{
    let n = s.unicode_len();
    let mut start: usize = 0;
    if n > 0 && s.get_char(0) == '+' {
        start = 1;
    }
    proof {
        if start == 1 {
            assert(numeral_body(s@) =~= s@.subrange(1, n as int));
        } else {
            assert(numeral_body(s@) =~= s@.subrange(0, n as int));
        }
    }
    let ghost body = numeral_body(s@);
    if start >= n {
        proof {
            assert(body.len() == 0);
        }
        return Option::None;
    }
    let mut val: usize = 0;
    let mut i: usize = start;
    proof {
        assert(body.take(0) =~= Seq::<char>::empty());
    }
    while i < n
        invariant
            start <= i <= n,
            n == s@.len(),
            body == numeral_body(s@),
            body =~= s@.subrange(start as int, n as int),
            forall|j: int| 0 <= j < i - start ==> is_digit_char(#[trigger] body[j]),
            val == digits_value(body.take(i - start)),
        decreases n - i,
    {
        let c = s.get_char(i);
        proof {
            assert(body[i - start] == s@[i as int]);
        }
        match char_digit_exec(c) {
            Option::None => {
                proof {
                    assert(!is_digit_char(body[i - start]));
                    assert(!is_numeral(s@));
                }
                return Option::None;
            },
            Option::Some(d) => {
                proof {
                    assert(body.take(i - start + 1).drop_last() =~= body.take(i - start));
                    assert(body.take(i - start + 1).last() == body[i - start]);
                }
                if val > (usize::MAX - d as usize) / 10 {
                    proof {
                        assert(val * 10 + d as int > usize::MAX) by (nonlinear_arith)
                            requires
                                val > (usize::MAX - d as usize) / 10,
                                d < 10,
                        ;
                        assert(digits_value(body.take(i - start + 1)) > usize::MAX);
                        if forall|j: int|
                            0 <= j < body.len() ==> is_digit_char(#[trigger] body[j]) {
                            lemma_digits_prefix(body, i - start + 1);
                            assert(digits_value(body) > usize::MAX);
                        }
                    }
                    return Option::None;
                }
                proof {
                    assert(val * 10 + d as int <= usize::MAX) by (nonlinear_arith)
                        requires
                            val <= (usize::MAX - d as usize) / 10,
                            d < 10,
                            val >= 0,
                    ;
                }
                val = val * 10 + d as usize;
            },
        }
        i = i + 1;
    }
    proof {
        assert(body.take(n - start) =~= body);
        assert(is_numeral(s@));
    }
    Option::Some(val)
}

// ---- CSV column mapping ---------------------------------------------------
/// The first position of `name` among the headers.
pub open spec fn position_of(headers: Seq<Seq<char>>, name: Seq<char>) -> Option<int>
    decreases headers.len(),
{
    if headers.len() == 0 {
        Option::None
    } else if headers[0] == name {
        Option::Some(0)
    } else {
        match position_of(headers.skip(1), name) {
            Option::Some(i) => Option::Some(i + 1),
            Option::None => Option::None,
        }
    }
}

proof fn lemma_position_of(headers: Seq<Seq<char>>, name: Seq<char>)
    ensures
        match position_of(headers, name) {
            Option::Some(i) => 0 <= i < headers.len() && headers[i] == name && forall|j: int|
                0 <= j < i ==> headers[j] != name,
            Option::None => forall|j: int| 0 <= j < headers.len() ==> headers[j] != name,
        },
    decreases headers.len(),
{
    if headers.len() > 0 && headers[0] != name {
        lemma_position_of(headers.skip(1), name);
        match position_of(headers.skip(1), name) {
            Option::Some(i) => {
                assert(headers.skip(1)[i] == headers[i + 1]);
                assert forall|j: int| 0 <= j < i + 1 implies headers[j] != name by {
                    if j > 0 {
                        assert(headers[j] == headers.skip(1)[j - 1]);
                    }
                }
            },
            Option::None => {
                assert forall|j: int| 0 <= j < headers.len() implies headers[j] != name by {
                    if j > 0 {
                        assert(headers[j] == headers.skip(1)[j - 1]);
                    }
                }
            },
        }
    }
}

fn find_position(headers: &Vec<String>, name: &str) -> (r: Option<usize>)
    ensures
        match r {
            Option::Some(i) => position_of(strings_view(headers@), name@) == Option::Some(i as int),
            Option::None => position_of(strings_view(headers@), name@) is None,
        },
{
    proof {
        lemma_position_of(strings_view(headers@), name@);
    }
    let n = headers.len();
    let mut i: usize = 0;
    while i < n
        invariant
            i <= n,
            n == headers@.len(),
            forall|j: int| 0 <= j < i ==> strings_view(headers@)[j] != name@,
        decreases n - i,
    {
        if str_eq(headers[i].as_str(), name) {
            proof {
                assert(strings_view(headers@)[i as int] == name@);
                lemma_position_of(strings_view(headers@), name@);
                if position_of(strings_view(headers@), name@) is None {
                    assert(false);
                }
            }
            return Option::Some(i);
        }
        proof {
            assert(strings_view(headers@)[i as int] != name@);
        }
        i = i + 1;
    }
    proof {
        lemma_position_of(strings_view(headers@), name@);
        match position_of(strings_view(headers@), name@) {
            Option::Some(k) => {
                assert(strings_view(headers@)[k] == name@);
                assert(false);
            },
            Option::None => {},
        }
    }
    Option::None
}

/// The database columns and CSV positions that the mapping resolves to: a
/// mapping entry whose CSV column names a header takes that position; one
/// that is a decimal index takes that index; others contribute nothing.
pub open spec fn resolved_mapping(
    mapping: Seq<(String, String)>,
    headers: Seq<Seq<char>>,
) -> Seq<(Seq<char>, int)>
    decreases mapping.len(),
{
    if mapping.len() == 0 {
        Seq::empty()
    } else {
        let rest = resolved_mapping(mapping.drop_last(), headers);
        let csv_col = mapping.last().0;
        let db_col = mapping.last().1;
        match position_of(headers, csv_col@) {
            Option::Some(p) => rest.push((db_col@, p)),
            Option::None => if is_numeral(csv_col@) && digits_value(numeral_body(csv_col@))
                <= usize::MAX {
                rest.push((db_col@, digits_value(numeral_body(csv_col@))))
            } else {
                rest
            },
        }
    }
}

/// Resolves the CSV import's column mapping: with no mapping the headers
/// map onto themselves in order; otherwise each mapping entry is resolved
/// by header name first, then as a decimal index.
pub fn resolve_columns(mapping: &Vec<(String, String)>, headers: &Vec<String>) -> (r: (
    Vec<String>,
    Vec<usize>,
))
    ensures
        r.0@.len() == r.1@.len(),
        (mapping@.len() == 0 && headers@.len() > 0) ==> r.0@.len() == headers@.len(),
        (mapping@.len() == 0 && headers@.len() > 0) ==> forall|k: int|
            0 <= k < headers@.len() ==> (#[trigger] r.0@[k])@ == headers@[k]@,
        (mapping@.len() == 0 && headers@.len() > 0) ==> forall|k: int|
            0 <= k < headers@.len() ==> #[trigger] r.1@[k] == k,
        mapping@.len() > 0 ==> r.0@.len() == resolved_mapping(
            mapping@,
            strings_view(headers@),
        ).len(),
        mapping@.len() > 0 ==> forall|k: int|
            0 <= k < r.0@.len() ==> (#[trigger] r.0@[k])@ == resolved_mapping(
                mapping@,
                strings_view(headers@),
            )[k].0,
        mapping@.len() > 0 ==> forall|k: int|
            0 <= k < r.0@.len() ==> #[trigger] r.1@[k] == resolved_mapping(
                mapping@,
                strings_view(headers@),
            )[k].1,
{
    let mut cols: Vec<String> = Vec::new();
    let mut idxs: Vec<usize> = Vec::new();
    if mapping.len() == 0 {
        let n = headers.len();
        let mut i: usize = 0;
        while i < n
            invariant
                i <= n,
                n == headers@.len(),
                cols@.len() == i,
                idxs@.len() == i,
                forall|k: int|
                    0 <= k < i ==> (#[trigger] cols@[k])@ == headers@[k]@ && idxs@[k] == k,
            decreases n - i,
        {
            cols.push(headers[i].clone());
            idxs.push(i);
            i = i + 1;
        }
        proof {
            assert forall|k: int| 0 <= k < headers@.len() implies #[trigger] idxs@[k] == k by {
                assert(cols@[k]@ == headers@[k]@);
            }
        }
        return (cols, idxs);
    }
    let n = mapping.len();
    let mut i: usize = 0;
    proof {
        assert(mapping@.take(0) =~= Seq::<(String, String)>::empty());
        assert(resolved_mapping(mapping@.take(0), strings_view(headers@)) =~= Seq::<
            (Seq<char>, int),
        >::empty());
    }
    while i < n
        invariant
            i <= n,
            n == mapping@.len(),
            cols@.len() == idxs@.len(),
            cols@.len() == resolved_mapping(mapping@.take(i as int), strings_view(headers@)).len(),
            forall|k: int|
                0 <= k < cols@.len() ==> (#[trigger] cols@[k])@ == resolved_mapping(
                    mapping@.take(i as int),
                    strings_view(headers@),
                )[k].0 && idxs@[k] == resolved_mapping(
                    mapping@.take(i as int),
                    strings_view(headers@),
                )[k].1,
        decreases n - i,
    {
        proof {
            assert(mapping@.take(i + 1).drop_last() =~= mapping@.take(i as int));
            assert(mapping@.take(i + 1).last() == mapping@[i as int]);
        }
        let csv_col = &mapping[i].0;
        let db_col = &mapping[i].1;
        match find_position(headers, csv_col.as_str()) {
            Option::Some(p) => {
                cols.push(db_col.clone());
                idxs.push(p);
            },
            Option::None => {
                match parse_usize(csv_col.as_str()) {
                    Option::Some(idx) => {
                        cols.push(db_col.clone());
                        idxs.push(idx);
                    },
                    Option::None => {},
                }
            },
        }
        i = i + 1;
    }
    proof {
        assert(mapping@.take(n as int) =~= mapping@);
        assert forall|k: int|
            0 <= k < cols@.len() implies #[trigger] idxs@[k] == resolved_mapping(
            mapping@,
            strings_view(headers@),
        )[k].1 by {
            assert(cols@[k]@ == resolved_mapping(mapping@, strings_view(headers@))[k].0);
        }
    }
    (cols, idxs)
}

// ---- statement composition ------------------------------------------------
pub open spec fn quoted_cols(cols: Seq<Seq<char>>, mysql: bool) -> Seq<Seq<char>> {
    cols.map_values(|c: Seq<char>| quoted_ident(c, mysql))
}

/// The bind placeholders of one inserted row: `$1..$n` for Postgres, `?`
/// elsewhere.
pub open spec fn placeholders_spec(n: nat, postgres: bool) -> Seq<Seq<char>>
    decreases n,
{
    if n == 0 {
        Seq::empty()
    } else {
        placeholders_spec((n - 1) as nat, postgres).push(
            if postgres {
                "$"@ + dec_str(n)
            } else {
                "?"@
            },
        )
    }
}

/// The parameterised INSERT the CSV importer binds each record against.
pub open spec fn insert_sql_spec(table: Seq<char>, cols: Seq<Seq<char>>, db_type: Seq<char>) -> Seq<
    char,
> {
    "INSERT INTO "@ + quoted_ident(table, db_type == "mysql"@) + " ("@ + joined(
        quoted_cols(cols, db_type == "mysql"@),
        ", "@,
    ) + ") VALUES ("@ + joined(placeholders_spec(cols.len(), db_type == "postgres"@), ", "@) + ")"@
}

/// Composes the INSERT statement for a batch of CSV records.
pub fn insert_sql(table: &str, cols: &Vec<String>, db_type: &str) -> (r: String)
    ensures
        r@ == insert_sql_spec(table@, strings_view(cols@), db_type@),
{
    let mysql = str_eq(db_type, "mysql");
    let postgres = str_eq(db_type, "postgres");
    let mut out = String::new();
    out.append("INSERT INTO ");
    push_quoted_ident(&mut out, table, mysql);
    out.append(" (");
    let n = cols.len();
    let mut i: usize = 0;
    let ghost cview = strings_view(cols@);
    proof {
        assert(quoted_cols(cview.take(0), mysql) =~= Seq::<Seq<char>>::empty());
    }
    while i < n
        invariant
            i <= n,
            n == cols@.len(),
            cview == strings_view(cols@),
            mysql == (db_type@ == "mysql"@),
            out@ == insert_prefix(table@, db_type@) + joined(
                quoted_cols(cview.take(i as int), mysql),
                ", "@,
            ),
        decreases n - i,
    {
        if i > 0 {
            out.append(", ");
        }
        push_quoted_ident(&mut out, cols[i].as_str(), mysql);
        proof {
            assert(quoted_cols(cview.take(i + 1), mysql) =~= quoted_cols(
                cview.take(i as int),
                mysql,
            ).push(quoted_ident(cview[i as int], mysql)));
            lemma_joined_push(
                quoted_cols(cview.take(i as int), mysql),
                ", "@,
                quoted_ident(cview[i as int], mysql),
            );
            assert(out@ =~= insert_prefix(table@, db_type@) + joined(
                quoted_cols(cview.take(i + 1), mysql),
                ", "@,
            ));
        }
        i = i + 1;
    }
    proof {
        assert(cview.take(n as int) =~= cview);
    }
    out.append(") VALUES (");
    let mut k: usize = 0;
    let ghost mid = out@;
    proof {
        assert(joined(placeholders_spec(0, postgres), ", "@) =~= Seq::<char>::empty());
        assert(mid + joined(placeholders_spec(0, postgres), ", "@) =~= mid);
    }
    while k < n
        invariant
            k <= n,
            n == cols@.len(),
            postgres == (db_type@ == "postgres"@),
            out@ == mid + joined(placeholders_spec(k as nat, postgres), ", "@),
        decreases n - k,
    {
        if k > 0 {
            out.append(", ");
        }
        if postgres {
            out.append("$");
            push_dec_u64(&mut out, (k + 1) as u64);
        } else {
            out.append("?");
        }
        proof {
            let ph: Seq<char> = if postgres {
                "$"@ + dec_str((k + 1) as nat)
            } else {
                "?"@
            };
            assert(placeholders_spec((k + 1) as nat, postgres) == placeholders_spec(
                k as nat,
                postgres,
            ).push(ph));
            lemma_joined_push(placeholders_spec(k as nat, postgres), ", "@, ph);
            assert(out@ =~= mid + joined(placeholders_spec((k + 1) as nat, postgres), ", "@));
        }
        k = k + 1;
    }
    out.append(")");
    proof {
        assert(out@ =~= insert_sql_spec(table@, strings_view(cols@), db_type@));
    }
    out
}

/// The text every column definition of an imported table gets.
pub open spec fn text_col_defs(cols: Seq<Seq<char>>, mysql: bool) -> Seq<Seq<char>> {
    cols.map_values(|c: Seq<char>| quoted_ident(c, mysql) + " TEXT"@)
}

/// The CREATE TABLE the CSV importer issues when asked to create the
/// target: every column typed TEXT.
pub open spec fn create_table_sql_spec(
    table: Seq<char>,
    cols: Seq<Seq<char>>,
    db_type: Seq<char>,
) -> Seq<char> {
    "CREATE TABLE IF NOT EXISTS "@ + quoted_ident(table, db_type == "mysql"@) + " ("@ + joined(
        text_col_defs(cols, db_type == "mysql"@),
        ", "@,
    ) + ")"@
}

/// Composes the CREATE TABLE statement for a CSV import target.
pub fn create_table_sql(table: &str, cols: &Vec<String>, db_type: &str) -> (r: String)
    ensures
        r@ == create_table_sql_spec(table@, strings_view(cols@), db_type@),
{
    let mysql = str_eq(db_type, "mysql");
    let mut out = String::new();
    out.append("CREATE TABLE IF NOT EXISTS ");
    push_quoted_ident(&mut out, table, mysql);
    out.append(" (");
    let n = cols.len();
    let mut i: usize = 0;
    let ghost cview = strings_view(cols@);
    let ghost mid = out@;
    proof {
        assert(text_col_defs(cview.take(0), mysql) =~= Seq::<Seq<char>>::empty());
        assert(mid + joined(text_col_defs(cview.take(0), mysql), ", "@) =~= mid);
    }
    while i < n
        invariant
            i <= n,
            n == cols@.len(),
            cview == strings_view(cols@),
            mysql == (db_type@ == "mysql"@),
            out@ == mid + joined(text_col_defs(cview.take(i as int), mysql), ", "@),
        decreases n - i,
    {
        if i > 0 {
            out.append(", ");
        }
        push_quoted_ident(&mut out, cols[i].as_str(), mysql);
        out.append(" TEXT");
        proof {
            assert(text_col_defs(cview.take(i + 1), mysql) =~= text_col_defs(
                cview.take(i as int),
                mysql,
            ).push(quoted_ident(cview[i as int], mysql) + " TEXT"@));
            lemma_joined_push(
                text_col_defs(cview.take(i as int), mysql),
                ", "@,
                quoted_ident(cview[i as int], mysql) + " TEXT"@,
            );
            assert(out@ =~= mid + joined(text_col_defs(cview.take(i + 1), mysql), ", "@));
        }
        i = i + 1;
    }
    proof {
        assert(cview.take(n as int) =~= cview);
    }
    out.append(")");
    proof {
        assert(out@ =~= create_table_sql_spec(table@, strings_view(cols@), db_type@));
    }
    out
}

/// The fixed text before the column list of the importer's INSERT.
pub open spec fn insert_prefix(table: Seq<char>, db_type: Seq<char>) -> Seq<char> {
    "INSERT INTO "@ + quoted_ident(table, db_type == "mysql"@) + " ("@
}

} // verus!
