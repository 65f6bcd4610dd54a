//! Character-level text building blocks shared by the SQL builders and the
//! value mapper: escaping by doubling a quote character, whitespace trimming,
//! decimal and hexadecimal rendering.
use vstd::prelude::*;

verus! {

/// Relies on String::push: appends exactly one character.
#[verifier::external_body]
pub fn push_char(s: &mut String, c: char)
    ensures
        final(s)@ == old(s)@.push(c),
{
    s.push(c);
}

/// Relies on str's PartialEq: two slices are equal exactly when their
/// character sequences are.
#[verifier::external_body]
pub fn str_eq(a: &str, b: &str) -> (r: bool)
    ensures
        r == (a@ == b@),
{
    a == b
}

/// `s` with every occurrence of `q` doubled.
pub open spec fn doubled(s: Seq<char>, q: char) -> Seq<char>
    decreases s.len(),
{
    if s.len() == 0 {
        Seq::empty()
    } else if s[0] == q {
        seq![q, q] + doubled(s.skip(1), q)
    } else {
        seq![s[0]] + doubled(s.skip(1), q)
    }
}

pub proof fn lemma_doubled_push(s: Seq<char>, q: char, c: char)
    ensures
        doubled(s.push(c), q) == doubled(s, q) + (if c == q {
            seq![q, q]
        } else {
            seq![c]
        }),
    decreases s.len(),
{
    let tail: Seq<char> = if c == q { seq![q, q] } else { seq![c] };
    if s.len() == 0 {
        assert(s.push(c).skip(1) =~= Seq::<char>::empty());
        assert(s.push(c)[0] == c);
        assert(doubled(Seq::<char>::empty(), q) =~= Seq::<char>::empty());
        assert(doubled(s.push(c), q) =~= tail);
        assert(doubled(s, q) + tail =~= tail);
    } else {
        assert(s.push(c).skip(1) =~= s.skip(1).push(c));
        lemma_doubled_push(s.skip(1), q, c);
        if s[0] == q {
            assert(doubled(s.push(c), q) =~= seq![q, q] + (doubled(s.skip(1), q) + tail));
            assert(doubled(s, q) + tail =~= seq![q, q] + (doubled(s.skip(1), q) + tail));
        } else {
            assert(doubled(s.push(c), q) =~= seq![s[0]] + (doubled(s.skip(1), q) + tail));
            assert(doubled(s, q) + tail =~= seq![s[0]] + (doubled(s.skip(1), q) + tail));
        }
    }
}

/// Appends `s` to `out` with every occurrence of `q` doubled.
pub fn push_doubled(out: &mut String, s: &str, q: char)
    ensures
        final(out)@ == old(out)@ + doubled(s@, q),
{
    let n = s.unicode_len();
    let mut i: usize = 0;
    proof {
        assert(s@.take(0) =~= Seq::<char>::empty());
        assert(out@ + doubled(s@.take(0), q) =~= out@);
    }
    while i < n
        invariant
            i <= n,
            n == s@.len(),
            out@ == old(out)@ + doubled(s@.take(i as int), q),
        decreases n - i,
    {
        let c = s.get_char(i);
        push_char(out, c);
        if c == q {
            push_char(out, c);
        }
        proof {
            assert(s@.take(i + 1) =~= s@.take(i as int).push(s@[i as int]));
            lemma_doubled_push(s@.take(i as int), q, s@[i as int]);
            if c == q {
                assert(out@ =~= old(out)@ + doubled(s@.take(i + 1), q));
            } else {
                assert(out@ =~= old(out)@ + doubled(s@.take(i + 1), q));
            }
        }
        i = i + 1;
    }
    proof {
        assert(s@.take(n as int) =~= s@);
    }
}

/// `s` with every occurrence of `q` doubled, as a fresh string.
pub fn escape_doubling(s: &str, q: char) -> (r: String)
    ensures
        r@ == doubled(s@, q),
{
    let mut out = String::new();
    push_doubled(&mut out, s, q);
    proof {
        assert(Seq::<char>::empty() + doubled(s@, q) =~= doubled(s@, q));
    }
    out
}

/// The whitespace characters the trimmers recognise.
pub open spec fn is_space_char(c: char) -> bool {
    c == ' ' || c == '\t' || c == '\n' || c == '\r'
}

pub open spec fn trim_left_spec(s: Seq<char>) -> Seq<char>
    decreases s.len(),
{
    if s.len() > 0 && is_space_char(s[0]) {
        trim_left_spec(s.skip(1))
    } else {
        s
    }
}

pub open spec fn trim_right_spec(s: Seq<char>) -> Seq<char>
    decreases s.len(),
{
    if s.len() > 0 && is_space_char(s.last()) {
        trim_right_spec(s.drop_last())
    } else {
        s
    }
}

/// `s` with leading and trailing whitespace removed.
pub open spec fn trimmed(s: Seq<char>) -> Seq<char> {
    trim_right_spec(trim_left_spec(s))
}

proof fn lemma_trim_left_skip(s: Seq<char>, i: int)
    requires
        0 <= i <= s.len(),
        forall|j: int| 0 <= j < i ==> is_space_char(s[j]),
    ensures
        trim_left_spec(s) == trim_left_spec(s.skip(i)),
    decreases i,
{
    if i > 0 {
        assert(is_space_char(s[0]));
        assert(trim_left_spec(s) == trim_left_spec(s.skip(1)));
        assert(s.skip(1).skip(i - 1) =~= s.skip(i));
        lemma_trim_left_skip(s.skip(1), i - 1);
    } else {
        assert(s.skip(0) =~= s);
    }
}

proof fn lemma_trim_right_take(s: Seq<char>, i: int)
    requires
        0 <= i <= s.len(),
        forall|j: int| i <= j < s.len() ==> is_space_char(s[j]),
    ensures
        trim_right_spec(s) == trim_right_spec(s.take(i)),
    decreases s.len() - i,
{
    if i < s.len() {
        assert(is_space_char(s.last()));
        assert(trim_right_spec(s) == trim_right_spec(s.drop_last()));
        assert(s.drop_last() =~= s.take(s.len() - 1));
        assert(s.take(s.len() - 1).take(i) =~= s.take(i));
        lemma_trim_right_take(s.take(s.len() - 1), i);
    } else {
        assert(s.take(i) =~= s);
    }
}

/// `s` with leading and trailing whitespace removed.
pub fn trim_spaces(s: &str) -> (r: String)
    ensures
        r@ == trimmed(s@),
{
    let n = s.unicode_len();
    let mut start: usize = 0;
    while start < n && is_space_exec(s.get_char(start))
        invariant
            start <= n,
            n == s@.len(),
            forall|j: int| 0 <= j < start ==> is_space_char(s@[j]),
        decreases n - start,
    {
        start = start + 1;
    }
    let mut end: usize = n;
    while end > start && is_space_exec(s.get_char(end - 1))
        invariant
            start <= end <= n,
            n == s@.len(),
            forall|j: int| 0 <= j < start ==> is_space_char(s@[j]),
            forall|j: int| end <= j < n ==> is_space_char(s@[j]),
        decreases end,
    {
        end = end - 1;
    }
    let mid = s.substring_char(start, end);
    proof {
        lemma_trim_left_skip(s@, start as int);
        let sk = s@.skip(start as int);
        if end > start {
            assert(!is_space_char(s@[start as int]));
            assert(sk[0] == s@[start as int]);
            assert(trim_left_spec(sk) == sk);
        } else {
            assert(forall|j: int| 0 <= j < sk.len() ==> is_space_char(#[trigger] sk[j]));
            if sk.len() > 0 {
                assert(trim_left_spec(sk) == trim_left_spec(sk.skip(1))) by {
                    assert(is_space_char(sk[0]));
                }
            }
            lemma_trim_left_all_spaces(sk);
            assert(trim_left_spec(sk) =~= sk.skip(sk.len() as int));
        }
        // now reduce the right side
        if end > start {
            assert(forall|j: int| end - start <= j < sk.len() ==> is_space_char(#[trigger] sk[j]));
            lemma_trim_right_take(sk, end - start);
            let tk = sk.take(end - start);
            if end > start {
                assert(!is_space_char(s@[end - 1]));
                assert(tk.last() == s@[end - 1]);
                assert(trim_right_spec(tk) == tk);
            }
            assert(tk =~= s@.subrange(start as int, end as int));
        } else {
            assert(trimmed(s@) =~= Seq::<char>::empty());
            assert(s@.subrange(start as int, end as int) =~= Seq::<char>::empty());
        }
    }
    let mut out = String::new();
    out.append(mid);
    proof {
        assert(Seq::<char>::empty() + mid@ =~= mid@);
    }
    out
}

proof fn lemma_trim_left_all_spaces(s: Seq<char>)
    requires
        forall|j: int| 0 <= j < s.len() ==> is_space_char(#[trigger] s[j]),
    ensures
        trim_left_spec(s) == Seq::<char>::empty(),
    decreases s.len(),
{
    if s.len() > 0 {
        lemma_trim_left_all_spaces(s.skip(1));
    } else {
        assert(trim_left_spec(s) =~= Seq::<char>::empty());
    }
}

fn is_space_exec(c: char) -> (r: bool)
    ensures
        r == is_space_char(c),
{
    c == ' ' || c == '\t' || c == '\n' || c == '\r'
}

/// `s` with every trailing occurrence of `c` removed.
pub open spec fn without_trailing(s: Seq<char>, c: char) -> Seq<char>
    decreases s.len(),
{
    if s.len() > 0 && s.last() == c {
        without_trailing(s.drop_last(), c)
    } else {
        s
    }
}

proof fn lemma_without_trailing_take(s: Seq<char>, c: char, i: int)
    requires
        0 <= i <= s.len(),
        forall|j: int| i <= j < s.len() ==> s[j] == c,
    ensures
        without_trailing(s, c) == without_trailing(s.take(i), c),
    decreases s.len() - i,
{
    if i < s.len() {
        assert(s.last() == c);
        assert(s.drop_last() =~= s.take(s.len() - 1));
        assert(s.take(s.len() - 1).take(i) =~= s.take(i));
        lemma_without_trailing_take(s.take(s.len() - 1), c, i);
    } else {
        assert(s.take(i) =~= s);
    }
}

/// `s` with every trailing occurrence of `c` removed, as a fresh string.
pub fn strip_trailing(s: &str, c: char) -> (r: String)
    ensures
        r@ == without_trailing(s@, c),
{
    let n = s.unicode_len();
    let mut end: usize = n;
    while end > 0 && s.get_char(end - 1) == c
        invariant
            end <= n,
            n == s@.len(),
            forall|j: int| end <= j < n ==> s@[j] == c,
        decreases end,
    {
        end = end - 1;
    }
    let head = s.substring_char(0, end);
    proof {
        lemma_without_trailing_take(s@, c, end as int);
        let tk = s@.take(end as int);
        if end > 0 {
            assert(tk.last() == s@[end - 1]);
            assert(tk.last() != c);
            assert(without_trailing(tk, c) == tk);
        } else {
            assert(tk =~= Seq::<char>::empty());
        }
        assert(tk =~= s@.subrange(0, end as int));
    }
    let mut out = String::new();
    out.append(head);
    proof {
        assert(Seq::<char>::empty() + head@ =~= head@);
    }
    out
}

/// Whether `s` begins with the keyword SELECT in any letter case.
pub open spec fn is_select_prefix(s: Seq<char>) -> bool {
    s.len() >= 6 && (s[0] == 'S' || s[0] == 's') && (s[1] == 'E' || s[1] == 'e') && (s[2] == 'L'
        || s[2] == 'l') && (s[3] == 'E' || s[3] == 'e') && (s[4] == 'C' || s[4] == 'c') && (s[5]
        == 'T' || s[5] == 't')
}

pub fn starts_with_select(s: &str) -> (r: bool)
    ensures
        r == is_select_prefix(s@),
{
    let n = s.unicode_len();
    if n < 6 {
        return false;
    }
    let c0 = s.get_char(0);
    let c1 = s.get_char(1);
    let c2 = s.get_char(2);
    let c3 = s.get_char(3);
    let c4 = s.get_char(4);
    let c5 = s.get_char(5);
    (c0 == 'S' || c0 == 's') && (c1 == 'E' || c1 == 'e') && (c2 == 'L' || c2 == 'l') && (c3 == 'E'
        || c3 == 'e') && (c4 == 'C' || c4 == 'c') && (c5 == 'T' || c5 == 't')
}

/// Whether `s` begins with `p`.
pub open spec fn has_prefix(s: Seq<char>, p: Seq<char>) -> bool {
    s.len() >= p.len() && s.take(p.len() as int) == p
}

pub fn starts_with(s: &str, p: &str) -> (r: bool)
    ensures
        r == has_prefix(s@, p@),
{
    let n = s.unicode_len();
    let m = p.unicode_len();
    if n < m {
        proof {
            assert(!has_prefix(s@, p@));
        }
        return false;
    }
    let mut i: usize = 0;
    while i < m
        invariant
            i <= m,
            m == p@.len(),
            n == s@.len(),
            n >= m,
            forall|j: int| 0 <= j < i ==> s@[j] == p@[j],
        decreases m - i,
    {
        if s.get_char(i) != p.get_char(i) {
            proof {
                assert(s@.take(m as int)[i as int] != p@[i as int]);
            }
            return false;
        }
        i = i + 1;
    }
    proof {
        assert(s@.take(m as int) =~= p@);
    }
    true
}

/// The decimal digit character for `d`, which must lie in 0..10.
pub open spec fn dec_digit_char(d: int) -> char {
    if d == 0 {
        '0'
    } else if d == 1 {
        '1'
    } else if d == 2 {
        '2'
    } else if d == 3 {
        '3'
    } else if d == 4 {
        '4'
    } else if d == 5 {
        '5'
    } else if d == 6 {
        '6'
    } else if d == 7 {
        '7'
    } else if d == 8 {
        '8'
    } else {
        '9'
    }
}

/// The usual decimal rendering of `n`, without leading zeros.
pub open spec fn dec_str(n: nat) -> Seq<char>
    decreases n,
{
    if n < 10 {
        seq![dec_digit_char(n as int)]
    } else {
        dec_str(n / 10).push(dec_digit_char((n % 10) as int))
    }
}

/// The decimal rendering of a signed value: a minus sign for negatives.
pub open spec fn dec_str_signed(n: int) -> Seq<char> {
    if n >= 0 {
        dec_str(n as nat)
    } else {
        seq!['-'] + dec_str((-n) as nat)
    }
}

fn dec_digit_exec(d: u64) -> (c: char)
    requires
        d < 10,
    ensures
        c == dec_digit_char(d as int),
{
    match d {
        0 => '0',
        1 => '1',
        2 => '2',
        3 => '3',
        4 => '4',
        5 => '5',
        6 => '6',
        7 => '7',
        8 => '8',
        _ => '9',
    }
}

/// Appends the decimal rendering of `n` to `out`.
pub fn push_dec_u64(out: &mut String, n: u64)
    ensures
        final(out)@ == old(out)@ + dec_str(n as nat),
    decreases n,
{
    if n < 10 {
        push_char(out, dec_digit_exec(n));
        proof {
            assert(old(out)@.push(dec_digit_char(n as int)) =~= old(out)@ + dec_str(n as nat));
        }
    } else {
        push_dec_u64(out, n / 10);
        push_char(out, dec_digit_exec(n % 10));
        proof {
            assert((old(out)@ + dec_str((n / 10) as nat)).push(dec_digit_char((n % 10) as int))
                =~= old(out)@ + dec_str(n as nat));
        }
    }
}

/// Appends the decimal rendering of `n`, with a minus sign when negative.
pub fn push_dec_i64(out: &mut String, n: i64)
    ensures
        final(out)@ == old(out)@ + dec_str_signed(n as int),
{
    if n >= 0 {
        push_dec_u64(out, n as u64);
    } else {
        push_char(out, '-');
        let wide: i128 = n as i128;
        let mag: u64 = (-wide) as u64;
        proof {
            assert(mag as int == -(n as int));
        }
        push_dec_u64(out, mag);
        proof {
            assert(old(out)@.push('-') + dec_str(mag as nat) =~= old(out)@ + dec_str_signed(
                n as int,
            ));
        }
    }
}

/// `n` rendered in exactly two digits, zero padded; `n` must lie in 0..100.
pub open spec fn dec2(n: nat) -> Seq<char> {
    if n < 10 {
        seq!['0'] + dec_str(n)
    } else {
        dec_str(n)
    }
}

/// `n` rendered in exactly four digits, zero padded; `n` must lie in 0..10000.
pub open spec fn dec4(n: nat) -> Seq<char> {
    if n < 10 {
        seq!['0', '0', '0'] + dec_str(n)
    } else if n < 100 {
        seq!['0', '0'] + dec_str(n)
    } else if n < 1000 {
        seq!['0'] + dec_str(n)
    } else {
        dec_str(n)
    }
}

/// Appends `n` zero padded to two digits.
pub fn push_dec2(out: &mut String, n: u64)
    requires
        n < 100,
    ensures
        final(out)@ == old(out)@ + dec2(n as nat),
{
    if n < 10 {
        push_char(out, '0');
        push_dec_u64(out, n);
        proof {
            assert(old(out)@.push('0') + dec_str(n as nat) =~= old(out)@ + dec2(n as nat));
        }
    } else {
        push_dec_u64(out, n);
    }
}

/// Appends `n` zero padded to four digits.
pub fn push_dec4(out: &mut String, n: u64)
    requires
        n < 10000,
    ensures
        final(out)@ == old(out)@ + dec4(n as nat),
{
    if n < 10 {
        push_char(out, '0');
        push_char(out, '0');
        push_char(out, '0');
        push_dec_u64(out, n);
        proof {
            assert(old(out)@.push('0').push('0').push('0') + dec_str(n as nat) =~= old(out)@
                + dec4(n as nat));
        }
    } else if n < 100 {
        push_char(out, '0');
        push_char(out, '0');
        push_dec_u64(out, n);
        proof {
            assert(old(out)@.push('0').push('0') + dec_str(n as nat) =~= old(out)@ + dec4(
                n as nat,
            ));
        }
    } else if n < 1000 {
        push_char(out, '0');
        push_dec_u64(out, n);
        proof {
            assert(old(out)@.push('0') + dec_str(n as nat) =~= old(out)@ + dec4(n as nat));
        }
    } else {
        push_dec_u64(out, n);
    }
}

/// The lowercase hexadecimal digit for `d`, which must lie in 0..16.
pub open spec fn hex_digit_char(d: int) -> char {
    if d < 10 {
        dec_digit_char(d)
    } else if d == 10 {
        'a'
    } else if d == 11 {
        'b'
    } else if d == 12 {
        'c'
    } else if d == 13 {
        'd'
    } else if d == 14 {
        'e'
    } else {
        'f'
    }
}

/// Two lowercase hexadecimal digits for one byte.
pub open spec fn hex_byte(b: u8) -> Seq<char> {
    seq![hex_digit_char(b as int / 16), hex_digit_char(b as int % 16)]
}

/// The lowercase hexadecimal rendering of `bytes`, two digits per byte.
pub open spec fn hex_str(bytes: Seq<u8>) -> Seq<char>
    decreases bytes.len(),
{
    if bytes.len() == 0 {
        Seq::empty()
    } else {
        hex_byte(bytes[0]) + hex_str(bytes.skip(1))
    }
}

proof fn lemma_hex_str_push(bytes: Seq<u8>, b: u8)
    ensures
        hex_str(bytes.push(b)) == hex_str(bytes) + hex_byte(b),
    decreases bytes.len(),
{
    if bytes.len() == 0 {
        assert(bytes.push(b).skip(1) =~= Seq::<u8>::empty());
        assert(hex_str(Seq::<u8>::empty()) =~= Seq::<char>::empty());
        assert(hex_str(bytes.push(b)) =~= hex_byte(b));
        assert(hex_str(bytes) + hex_byte(b) =~= hex_byte(b));
    } else {
        assert(bytes.push(b).skip(1) =~= bytes.skip(1).push(b));
        lemma_hex_str_push(bytes.skip(1), b);
        assert(hex_str(bytes.push(b)) =~= hex_byte(bytes[0]) + (hex_str(bytes.skip(1)) + hex_byte(
            b,
        )));
        assert(hex_str(bytes) + hex_byte(b) =~= hex_byte(bytes[0]) + (hex_str(bytes.skip(1))
            + hex_byte(b)));
    }
}

fn hex_digit_exec(d: u8) -> (c: char)
    requires
        d < 16,
    ensures
        c == hex_digit_char(d as int),
{
    match d {
        0 => '0',
        1 => '1',
        2 => '2',
        3 => '3',
        4 => '4',
        5 => '5',
        6 => '6',
        7 => '7',
        8 => '8',
        9 => '9',
        10 => 'a',
        11 => 'b',
        12 => 'c',
        13 => 'd',
        14 => 'e',
        _ => 'f',
    }
}

/// Appends the lowercase hexadecimal rendering of `bytes[lo..hi]`.
pub fn push_hex_range(out: &mut String, bytes: &Vec<u8>, lo: usize, hi: usize)
    requires
        lo <= hi <= bytes@.len(),
    ensures
        final(out)@ == old(out)@ + hex_str(bytes@.subrange(lo as int, hi as int)),
{
    let mut i: usize = lo;
    proof {
        assert(bytes@.subrange(lo as int, lo as int) =~= Seq::<u8>::empty());
        assert(out@ + hex_str(bytes@.subrange(lo as int, lo as int)) =~= out@);
    }
    while i < hi
        invariant
            lo <= i <= hi <= bytes@.len(),
            out@ == old(out)@ + hex_str(bytes@.subrange(lo as int, i as int)),
        decreases hi - i,
    {
        let b = bytes[i];
        push_char(out, hex_digit_exec(b / 16));
        push_char(out, hex_digit_exec(b % 16));
        proof {
            assert(bytes@.subrange(lo as int, i + 1) =~= bytes@.subrange(
                lo as int,
                i as int,
            ).push(bytes@[i as int]));
            lemma_hex_str_push(bytes@.subrange(lo as int, i as int), bytes@[i as int]);
            assert(out@ =~= old(out)@ + hex_str(bytes@.subrange(lo as int, i + 1)));
        }
        i = i + 1;
    }
}

/// Appends the lowercase hexadecimal rendering of all of `bytes`.
pub fn push_hex(out: &mut String, bytes: &Vec<u8>)
    ensures
        final(out)@ == old(out)@ + hex_str(bytes@),
{
    push_hex_range(out, bytes, 0, bytes.len());
    proof {
        assert(bytes@.subrange(0, bytes@.len() as int) =~= bytes@);
    }
}


/// Whether `sub` occurs contiguously anywhere in `s`.
pub open spec fn contains_sub(s: Seq<char>, sub: Seq<char>) -> bool {
    exists|i: int|
        0 <= i && i + sub.len() <= s.len() && #[trigger] s.subrange(i, i + sub.len() as int)
            == sub
}

/// Substring search, quadratic and plain: ample for short type names.
pub fn contains_str(s: &str, sub: &str) -> (r: bool)
    ensures
        r == contains_sub(s@, sub@),
{
    let n = s.unicode_len();
    let m = sub.unicode_len();
    if m > n {
        proof {
            assert(!contains_sub(s@, sub@));
        }
        return false;
    }
    if m == 0 {
        proof {
            assert(contains_sub(s@, sub@)) by {
                assert(s@.subrange(0, 0 + sub@.len() as int) =~= sub@);
            }
        }
        return true;
    }
    let mut i: usize = 0;
    while i <= n - m
        invariant
            1 <= m <= n,
            n == s@.len(),
            m == sub@.len(),
            i <= n - m + 1,
            forall|k: int|
                0 <= k < i ==> #[trigger] s@.subrange(k, k + sub@.len() as int) != sub@,
        decreases n - i,
    {
        let mut j: usize = 0;
        let mut hit: bool = true;
        while j < m
            invariant
                1 <= m,
                i <= n - m,
                i + m <= n,
                n == s@.len(),
                m == sub@.len(),
                j <= m,
                hit ==> forall|t: int| 0 <= t < j ==> s@[i + t] == sub@[t],
                !hit ==> s@.subrange(i as int, i + sub@.len() as int) != sub@,
            decreases m - j,
        {
            if s.get_char(i + j) != sub.get_char(j) {
                proof {
                    let sr = s@.subrange(i as int, i + sub@.len() as int);
                    assert(sr[j as int] == s@[i + j]);
                    assert(sr[j as int] != sub@[j as int]);
                }
                hit = false;
                j = m;
            } else {
                j = j + 1;
            }
        }
        if hit {
            proof {
                assert(s@.subrange(i as int, i + sub@.len() as int) =~= sub@);
            }
            return true;
        }
        i = i + 1;
    }
    proof {
        assert forall|k: int| 0 <= k && k + sub@.len() <= s@.len() implies #[trigger] s@.subrange(
            k,
            k + sub@.len() as int,
        ) != sub@ by {
            assert(k < i);
        }
    }
    false
}

} // verus!
