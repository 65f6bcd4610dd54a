//! The per-dialect value mapper: a raw column value and its textual type
//! name become one JSON scalar. The drivers' decode attempts happen outside;
//! what arrives here is the decoded shape, as a `RawValue`, and the mapper
//! decides — from the type name alone — which shape is expected and what to
//! emit when the shape does not fit. A null raw value maps to JSON null
//! whatever the declared type; the fallback is always a descriptive string,
//! so the UI never loses a column.
use vstd::prelude::*;

use crate::text::{
    contains_str, contains_sub, dec2, dec4, dec_str, hex_str, push_char, push_dec2, push_dec4,
    push_dec_u64, push_hex, push_hex_range, str_eq,
};
use crate::types::{JsonScalar, JsonVal};

verus! {

/// Calendar date components.
#[derive(Clone, Copy, Debug, PartialEq, Eq, Structural)]
pub struct DateParts {
    pub year: u32,
    pub month: u32,
    pub day: u32,
}

/// Time-of-day components with nanosecond precision.
#[derive(Clone, Copy, Debug, PartialEq, Eq, Structural)]
pub struct TimeParts {
    pub hour: u32,
    pub minute: u32,
    pub second: u32,
    pub nanosecond: u32,
}

/// A full timestamp; `utc` tags an instant pinned to UTC, otherwise the
/// value is naive.
#[derive(Clone, Copy, Debug, PartialEq, Eq, Structural)]
pub struct DateTimeParts {
    pub date: DateParts,
    pub time: TimeParts,
    pub utc: bool,
}

pub open spec fn date_wf(d: DateParts) -> bool {
    d.year < 10000 && 1 <= d.month <= 12 && 1 <= d.day <= 31
}

pub open spec fn time_wf(t: TimeParts) -> bool {
    t.hour < 24 && t.minute < 60 && t.second < 60 && t.nanosecond < 1000000000
}

pub open spec fn datetime_wf(p: DateTimeParts) -> bool {
    date_wf(p.date) && time_wf(p.time)
}

/// A column value as the driver handed it over, reduced to plain shapes.
/// `Missing` stands for a value none of the driver's decode attempts for
/// the declared type could produce. Floating-point values arrive already
/// rendered; `finite` records whether the value was a representable number.
#[derive(Clone, Debug)]
pub enum RawValue {
    Null,
    Missing,
    Bool(bool),
    Int(i64),
    Uint(u64),
    Float { finite: bool, repr: String },
    Text(String),
    Bytes(Vec<u8>),
    DecimalText(String),
    UuidBytes(Vec<u8>),
    DateTime(DateTimeParts),
    DateOnly(DateParts),
    TimeOnly(TimeParts),
}

/// The mathematical shadow of a `RawValue`.
#[verifier::ext_equal]
pub ghost enum RawVal {
    Null,
    Missing,
    Bool(bool),
    Int(int),
    Uint(int),
    Float { finite: bool, repr: Seq<char> },
    Text(Seq<char>),
    Bytes(Seq<u8>),
    DecimalText(Seq<char>),
    UuidBytes(Seq<u8>),
    DateTime(DateTimeParts),
    DateOnly(DateParts),
    TimeOnly(TimeParts),
}

impl View for RawValue {
    type V = RawVal;

    open spec fn view(&self) -> RawVal {
        match *self {
            RawValue::Null => RawVal::Null,
            RawValue::Missing => RawVal::Missing,
            RawValue::Bool(b) => RawVal::Bool(b),
            RawValue::Int(n) => RawVal::Int(n as int),
            RawValue::Uint(n) => RawVal::Uint(n as int),
            RawValue::Float { finite, ref repr } => RawVal::Float {
                finite,
                repr: repr@,
            },
            RawValue::Text(ref s) => RawVal::Text(s@),
            RawValue::Bytes(ref b) => RawVal::Bytes(b@),
            RawValue::DecimalText(ref s) => RawVal::DecimalText(s@),
            RawValue::UuidBytes(ref b) => RawVal::UuidBytes(b@),
            RawValue::DateTime(p) => RawVal::DateTime(p),
            RawValue::DateOnly(d) => RawVal::DateOnly(d),
            RawValue::TimeOnly(t) => RawVal::TimeOnly(t),
        }
    }
}

impl DeepView for RawValue {
    type V = RawVal;

    open spec fn deep_view(&self) -> RawVal {
        self.view()
    }
}

/// Well-formedness of the model: temporal components in range, UUID payloads
/// sixteen bytes long.
pub open spec fn raw_wf(r: RawVal) -> bool {
    match r {
        RawVal::DateTime(p) => datetime_wf(p),
        RawVal::DateOnly(d) => date_wf(d),
        RawVal::TimeOnly(t) => time_wf(t),
        RawVal::UuidBytes(b) => b.len() == 16,
        _ => true,
    }
}

/// `n` rendered in exactly three digits, zero padded; `n` must lie in 0..1000.
pub open spec fn dec3(n: nat) -> Seq<char> {
    if n < 10 {
        seq!['0', '0'] + dec_str(n)
    } else if n < 100 {
        seq!['0'] + dec_str(n)
    } else {
        dec_str(n)
    }
}

fn push_dec3(out: &mut String, n: u64)
    requires
        n < 1000,
    ensures
        final(out)@ == old(out)@ + dec3(n as nat),
{
    if n < 10 {
        push_char(out, '0');
        push_char(out, '0');
        push_dec_u64(out, n);
        proof {
            assert(old(out)@.push('0').push('0') + dec_str(n as nat) =~= old(out)@ + dec3(
                n as nat,
            ));
        }
    } else if n < 100 {
        push_char(out, '0');
        push_dec_u64(out, n);
        proof {
            assert(old(out)@.push('0') + dec_str(n as nat) =~= old(out)@ + dec3(n as nat));
        }
    } else {
        push_dec_u64(out, n);
    }
}

/// The fractional-second suffix: empty for zero, else a dot and three, six
/// or nine digits — the shortest group that loses nothing.
pub open spec fn frac_str(nanos: nat) -> Seq<char> {
    if nanos == 0 {
        Seq::empty()
    } else if nanos % 1000000 == 0 {
        "."@ + dec3(nanos / 1000000)
    } else if nanos % 1000 == 0 {
        "."@ + dec3(nanos / 1000000) + dec3((nanos / 1000) % 1000)
    } else {
        "."@ + dec3(nanos / 1000000) + dec3((nanos / 1000) % 1000) + dec3(nanos % 1000)
    }
}

fn push_frac(out: &mut String, nanos: u32)
    requires
        nanos < 1000000000,
    ensures
        final(out)@ == old(out)@ + frac_str(nanos as nat),
{
    if nanos == 0 {
        proof {
            assert(old(out)@ + frac_str(nanos as nat) =~= old(out)@);
        }
        return ;
    }
    let millis_part: u64 = (nanos / 1000000) as u64;
    let micros_part: u64 = ((nanos / 1000) % 1000) as u64;
    let nanos_part: u64 = (nanos % 1000) as u64;
    proof {
        assert(millis_part < 1000) by (nonlinear_arith)
            requires
                nanos < 1000000000,
                millis_part == nanos / 1000000,
        ;
    }
    out.append(".");
    push_dec3(out, millis_part);
    if nanos % 1000000 == 0 {
        proof {
            assert(old(out)@ + "."@ + dec3(millis_part as nat) =~= old(out)@ + frac_str(
                nanos as nat,
            ));
        }
    } else {
        push_dec3(out, micros_part);
        if nanos % 1000 == 0 {
            proof {
                assert(old(out)@ + "."@ + dec3(millis_part as nat) + dec3(micros_part as nat)
                    =~= old(out)@ + frac_str(nanos as nat));
            }
        } else {
            push_dec3(out, nanos_part);
            proof {
                assert(old(out)@ + "."@ + dec3(millis_part as nat) + dec3(micros_part as nat)
                    + dec3(nanos_part as nat) =~= old(out)@ + frac_str(nanos as nat));
            }
        }
    }
}

/// `YYYY-MM-DD`.
pub open spec fn date_str(d: DateParts) -> Seq<char> {
    dec4(d.year as nat) + "-"@ + dec2(d.month as nat) + "-"@ + dec2(d.day as nat)
}

/// `HH:MM:SS` with the fractional suffix.
pub open spec fn time_str(t: TimeParts) -> Seq<char> {
    dec2(t.hour as nat) + ":"@ + dec2(t.minute as nat) + ":"@ + dec2(t.second as nat) + frac_str(
        t.nanosecond as nat,
    )
}

/// `YYYY-MM-DD HH:MM:SS`, the rendering of a naive timestamp; fractional
/// seconds are dropped, as the source format drops them.
pub open spec fn naive_datetime_str(p: DateTimeParts) -> Seq<char> {
    date_str(p.date) + " "@ + dec2(p.time.hour as nat) + ":"@ + dec2(p.time.minute as nat) + ":"@
        + dec2(p.time.second as nat)
}

/// The ISO-8601 rendering of a UTC instant: date, `T`, time with fractional
/// suffix, and the `+00:00` offset.
pub open spec fn rfc3339_str(p: DateTimeParts) -> Seq<char> {
    date_str(p.date) + "T"@ + time_str(p.time) + "+00:00"@
}

fn push_date(out: &mut String, d: DateParts)
    requires
        date_wf(d),
    ensures
        final(out)@ == old(out)@ + date_str(d),
{
    push_dec4(out, d.year as u64);
    out.append("-");
    push_dec2(out, d.month as u64);
    out.append("-");
    push_dec2(out, d.day as u64);
    proof {
        assert(final(out)@ =~= old(out)@ + date_str(d));
    }
}

fn push_time(out: &mut String, t: TimeParts)
    requires
        time_wf(t),
    ensures
        final(out)@ == old(out)@ + time_str(t),
{
    push_dec2(out, t.hour as u64);
    out.append(":");
    push_dec2(out, t.minute as u64);
    out.append(":");
    push_dec2(out, t.second as u64);
    push_frac(out, t.nanosecond);
    proof {
        assert(final(out)@ =~= old(out)@ + time_str(t));
    }
}

/// Renders a date as `YYYY-MM-DD`.
pub fn format_date(d: DateParts) -> (r: String)
    requires
        date_wf(d),
    ensures
        r@ == date_str(d),
{
    let mut out = String::new();
    push_date(&mut out, d);
    proof {
        assert(Seq::<char>::empty() + date_str(d) =~= date_str(d));
    }
    out
}

/// Renders a time of day as `HH:MM:SS` with the fractional suffix.
pub fn format_time(t: TimeParts) -> (r: String)
    requires
        time_wf(t),
    ensures
        r@ == time_str(t),
{
    let mut out = String::new();
    push_time(&mut out, t);
    proof {
        assert(Seq::<char>::empty() + time_str(t) =~= time_str(t));
    }
    out
}

/// Renders a naive timestamp as `YYYY-MM-DD HH:MM:SS`.
pub fn format_naive_datetime(p: DateTimeParts) -> (r: String)
    requires
        datetime_wf(p),
    ensures
        r@ == naive_datetime_str(p),
{
    let mut out = String::new();
    push_date(&mut out, p.date);
    out.append(" ");
    push_dec2(&mut out, p.time.hour as u64);
    out.append(":");
    push_dec2(&mut out, p.time.minute as u64);
    out.append(":");
    push_dec2(&mut out, p.time.second as u64);
    proof {
        assert(out@ =~= naive_datetime_str(p));
    }
    out
}

/// Renders a UTC instant in ISO-8601 with the `+00:00` offset.
pub fn format_rfc3339(p: DateTimeParts) -> (r: String)
    requires
        datetime_wf(p),
    ensures
        r@ == rfc3339_str(p),
{
    let mut out = String::new();
    push_date(&mut out, p.date);
    out.append("T");
    push_time(&mut out, p.time);
    out.append("+00:00");
    proof {
        assert(out@ =~= rfc3339_str(p));
    }
    out
}

/// The canonical lowercase UUID text of sixteen bytes: 8-4-4-4-12 hex
/// digits.
pub open spec fn uuid_canonical(b: Seq<u8>) -> Seq<char> {
    hex_str(b.subrange(0, 4)) + "-"@ + hex_str(b.subrange(4, 6)) + "-"@ + hex_str(b.subrange(6, 8))
        + "-"@ + hex_str(b.subrange(8, 10)) + "-"@ + hex_str(b.subrange(10, 16))
}

/// Renders sixteen bytes as a canonical UUID string.
pub fn format_uuid(b: &Vec<u8>) -> (r: String)
    requires
        b@.len() == 16,
    ensures
        r@ == uuid_canonical(b@),
{
    let mut out = String::new();
    push_hex_range(&mut out, b, 0, 4);
    out.append("-");
    push_hex_range(&mut out, b, 4, 6);
    out.append("-");
    push_hex_range(&mut out, b, 6, 8);
    out.append("-");
    push_hex_range(&mut out, b, 8, 10);
    out.append("-");
    push_hex_range(&mut out, b, 10, 16);
    proof {
        assert(out@ =~= uuid_canonical(b@));
    }
    out
}

/// `0x` followed by the lowercase hex of the bytes: the carrier for binary
/// column values.
pub open spec fn hex_payload(b: Seq<u8>) -> Seq<char> {
    "0x"@ + hex_str(b)
}

fn format_hex_payload(b: &Vec<u8>) -> (r: String)
    ensures
        r@ == hex_payload(b@),
{
    let mut out = String::new();
    out.append("0x");
    push_hex(&mut out, b);
    proof {
        assert(out@ =~= hex_payload(b@));
    }
    out
}

// ---- type-name heuristics -------------------------------------------------
/// Whether a lowercased type name denotes a textual column.
pub open spec fn is_text_name(n: Seq<char>) -> bool {
    n == "text"@ || contains_sub(n, "char"@) || n == "name"@ || n == "citext"@ || n == "json"@ || n
        == "jsonb"@ || n == "enum"@
}

/// The textual family: `text`, anything containing `char`, `name`, `citext`,
/// `json`, `jsonb`, `enum`.
pub fn type_name_is_text(name: &str) -> (r: bool)
    ensures
        r == is_text_name(name@),
{
    str_eq(name, "text") || contains_str(name, "char") || str_eq(name, "name") || str_eq(
        name,
        "citext",
    ) || str_eq(name, "json") || str_eq(name, "jsonb") || str_eq(name, "enum")
}

pub open spec fn is_bool_name(n: Seq<char>) -> bool {
    n == "bool"@ || n == "boolean"@
}

pub open spec fn is_int_name(n: Seq<char>) -> bool {
    contains_sub(n, "int"@) || n == "serial"@ || n == "year"@
}

pub open spec fn is_float_name(n: Seq<char>) -> bool {
    contains_sub(n, "float"@) || n == "real"@ || n == "double"@ || n == "numeric"@ || n
        == "decimal"@
}

pub open spec fn is_temporal_name(n: Seq<char>) -> bool {
    contains_sub(n, "time"@) || n == "date"@
}

fn name_is_bool(name: &str) -> (r: bool)
    ensures
        r == is_bool_name(name@),
{
    str_eq(name, "bool") || str_eq(name, "boolean")
}

fn name_is_int(name: &str) -> (r: bool)
    ensures
        r == is_int_name(name@),
{
    contains_str(name, "int") || str_eq(name, "serial") || str_eq(name, "year")
}

fn name_is_float(name: &str) -> (r: bool)
    ensures
        r == is_float_name(name@),
{
    contains_str(name, "float") || str_eq(name, "real") || str_eq(name, "double") || str_eq(
        name,
        "numeric",
    ) || str_eq(name, "decimal")
}

fn name_is_temporal(name: &str) -> (r: bool)
    ensures
        r == is_temporal_name(name@),
{
    contains_str(name, "time") || str_eq(name, "date")
}

// ---- fallback strings -----------------------------------------------------
pub open spec fn num_error_str(name: Seq<char>) -> Seq<char> {
    "NumError("@ + name + ")"@
}

pub open spec fn binary_err_str(name: Seq<char>) -> Seq<char> {
    "BinaryErr("@ + name + ")"@
}

pub open spec fn complex_str(name: Seq<char>) -> Seq<char> {
    "Binary/Complex ("@ + name + ")"@
}

fn wrap_name(prefix_open: &str, name: &str) -> (r: String)
    ensures
        r@ == prefix_open@ + name@ + ")"@,
{
    let mut out = String::new();
    out.append(prefix_open);
    out.append(name);
    out.append(")");
    proof {
        assert(out@ =~= prefix_open@ + name@ + ")"@);
    }
    out
}

// ---- the mappers ----------------------------------------------------------
/// What the Postgres mapper emits for a value of the named type.
pub open spec fn map_pg_spec(name: Seq<char>, raw: RawVal) -> JsonVal {
    if raw == RawVal::Null {
        JsonVal::Null
    } else if is_bool_name(name) || name == "bit"@ {
        match raw {
            RawVal::Bool(b) => JsonVal::Bool(b),
            _ => JsonVal::Null,
        }
    } else if name == "uuid"@ {
        match raw {
            RawVal::UuidBytes(b) => JsonVal::Str(uuid_canonical(b)),
            _ => JsonVal::Str("Invalid UUID"@),
        }
    } else if is_int_name(name) {
        match raw {
            RawVal::Int(i) => JsonVal::Int(i),
            _ => JsonVal::Str(num_error_str(name)),
        }
    } else if is_float_name(name) {
        match raw {
            RawVal::Float { finite, repr } => if finite {
                JsonVal::Float(repr)
            } else {
                JsonVal::Null
            },
            RawVal::DecimalText(d) => JsonVal::Str(d),
            _ => JsonVal::Null,
        }
    } else if is_text_name(name) {
        match raw {
            RawVal::Text(s) => JsonVal::Str(s),
            _ => JsonVal::Str(Seq::empty()),
        }
    } else if is_temporal_name(name) {
        match raw {
            RawVal::DateTime(p) => JsonVal::Str(
                if p.utc {
                    rfc3339_str(p)
                } else {
                    naive_datetime_str(p)
                },
            ),
            RawVal::DateOnly(d) => JsonVal::Str(date_str(d)),
            RawVal::TimeOnly(t) => JsonVal::Str(time_str(t)),
            RawVal::Text(s) => JsonVal::Str(s),
            _ => JsonVal::Str("Invalid Date"@),
        }
    } else if contains_sub(name, "bytea"@) {
        match raw {
            RawVal::Bytes(b) => JsonVal::Str(hex_payload(b)),
            _ => JsonVal::Str(binary_err_str(name)),
        }
    } else {
        match raw {
            RawVal::Text(s) => JsonVal::Str(s),
            _ => JsonVal::Str(complex_str(name)),
        }
    }
}

/// Maps one Postgres column value. `name` is the lowercased driver type
/// name.
pub fn map_postgres_value(name: &str, raw: &RawValue) -> (r: JsonScalar)
    requires
        raw_wf(raw@),
    ensures
        r@ == map_pg_spec(name@, raw@),
{
    if let RawValue::Null = raw {
        return JsonScalar::Null;
    }
    if name_is_bool(name) || str_eq(name, "bit") {
        match raw {
            RawValue::Bool(b) => JsonScalar::Bool(*b),
            _ => JsonScalar::Null,
        }
    } else if str_eq(name, "uuid") {
        match raw {
            RawValue::UuidBytes(b) => JsonScalar::Str(format_uuid(b)),
            _ => {
                let mut s = String::new();
                s.append("Invalid UUID");
                proof {
                    assert(s@ =~= "Invalid UUID"@);
                }
                JsonScalar::Str(s)
            },
        }
    } else if name_is_int(name) {
        match raw {
            RawValue::Int(i) => JsonScalar::IntNum(*i),
            _ => JsonScalar::Str(wrap_name("NumError(", name)),
        }
    } else if name_is_float(name) {
        match raw {
            RawValue::Float { finite, repr } => {
                if *finite {
                    JsonScalar::FloatNum(repr.clone())
                } else {
                    JsonScalar::Null
                }
            },
            RawValue::DecimalText(d) => JsonScalar::Str(d.clone()),
            _ => JsonScalar::Null,
        }
    } else if type_name_is_text(name) {
        match raw {
            RawValue::Text(s) => JsonScalar::Str(s.clone()),
            _ => JsonScalar::Str(String::new()),
        }
    } else if name_is_temporal(name) {
        match raw {
            RawValue::DateTime(p) => {
                if p.utc {
                    JsonScalar::Str(format_rfc3339(*p))
                } else {
                    JsonScalar::Str(format_naive_datetime(*p))
                }
            },
            RawValue::DateOnly(d) => JsonScalar::Str(format_date(*d)),
            RawValue::TimeOnly(t) => JsonScalar::Str(format_time(*t)),
            RawValue::Text(s) => JsonScalar::Str(s.clone()),
            _ => {
                let mut s = String::new();
                s.append("Invalid Date");
                proof {
                    assert(s@ =~= "Invalid Date"@);
                }
                JsonScalar::Str(s)
            },
        }
    } else if contains_str(name, "bytea") {
        match raw {
            RawValue::Bytes(b) => JsonScalar::Str(format_hex_payload(b)),
            _ => JsonScalar::Str(wrap_name("BinaryErr(", name)),
        }
    } else {
        match raw {
            RawValue::Text(s) => JsonScalar::Str(s.clone()),
            _ => JsonScalar::Str(wrap_name("Binary/Complex (", name)),
        }
    }
}

/// What the MySQL mapper emits. `full` is the undecoded full type text, used
/// only to recognise `TINYINT(1)` as boolean.
pub open spec fn map_mysql_spec(name: Seq<char>, full: Seq<char>, raw: RawVal) -> JsonVal {
    if raw == RawVal::Null {
        JsonVal::Null
    } else if name == "tinyint"@ && contains_sub(full, "TINYINT(1)"@) {
        match raw {
            RawVal::Bool(b) => JsonVal::Bool(b),
            RawVal::Int(v) => JsonVal::Bool(v != 0),
            _ => JsonVal::Null,
        }
    } else if is_int_name(name) {
        match raw {
            RawVal::Int(i) => JsonVal::Int(i),
            RawVal::Uint(u) => JsonVal::Uint(u),
            _ => JsonVal::Str(num_error_str(name)),
        }
    } else if is_float_name(name) {
        match raw {
            RawVal::Float { finite, repr } => if finite {
                JsonVal::Float(repr)
            } else {
                JsonVal::Null
            },
            RawVal::DecimalText(d) => JsonVal::Str(d),
            _ => JsonVal::Null,
        }
    } else if is_text_name(name) {
        match raw {
            RawVal::Text(s) => JsonVal::Str(s),
            _ => JsonVal::Str(Seq::empty()),
        }
    } else if is_temporal_name(name) || name == "timestamp"@ {
        match raw {
            RawVal::DateTime(p) => JsonVal::Str(
                if p.utc {
                    rfc3339_str(p)
                } else {
                    naive_datetime_str(p)
                },
            ),
            RawVal::DateOnly(d) => JsonVal::Str(date_str(d)),
            RawVal::TimeOnly(t) => JsonVal::Str(time_str(t)),
            RawVal::Text(s) => JsonVal::Str(s),
            _ => JsonVal::Str("Invalid Date"@),
        }
    } else if contains_sub(name, "blob"@) || contains_sub(name, "binary"@) {
        match raw {
            RawVal::Bytes(b) => if b.len() == 16 {
                JsonVal::Str(uuid_canonical(b))
            } else {
                JsonVal::Str(hex_payload(b))
            },
            _ => JsonVal::Str(binary_err_str(name)),
        }
    } else {
        match raw {
            RawVal::Text(s) => JsonVal::Str(s),
            _ => JsonVal::Str(complex_str(name)),
        }
    }
}

/// Maps one MySQL column value. A sixteen-byte binary value is shown as a
/// canonical UUID, other binary values as hex.
pub fn map_mysql_value(name: &str, full: &str, raw: &RawValue) -> (r: JsonScalar)
    requires
        raw_wf(raw@),
    ensures
        r@ == map_mysql_spec(name@, full@, raw@),
{
    if let RawValue::Null = raw {
        return JsonScalar::Null;
    }
    if str_eq(name, "tinyint") && contains_str(full, "TINYINT(1)") {
        match raw {
            RawValue::Bool(b) => JsonScalar::Bool(*b),
            RawValue::Int(v) => JsonScalar::Bool(*v != 0),
            _ => JsonScalar::Null,
        }
    } else if name_is_int(name) {
        match raw {
            RawValue::Int(i) => JsonScalar::IntNum(*i),
            RawValue::Uint(u) => JsonScalar::UintNum(*u),
            _ => JsonScalar::Str(wrap_name("NumError(", name)),
        }
    } else if name_is_float(name) {
        match raw {
            RawValue::Float { finite, repr } => {
                if *finite {
                    JsonScalar::FloatNum(repr.clone())
                } else {
                    JsonScalar::Null
                }
            },
            RawValue::DecimalText(d) => JsonScalar::Str(d.clone()),
            _ => JsonScalar::Null,
        }
    } else if type_name_is_text(name) {
        match raw {
            RawValue::Text(s) => JsonScalar::Str(s.clone()),
            _ => JsonScalar::Str(String::new()),
        }
    } else if name_is_temporal(name) || str_eq(name, "timestamp") {
        match raw {
            RawValue::DateTime(p) => {
                if p.utc {
                    JsonScalar::Str(format_rfc3339(*p))
                } else {
                    JsonScalar::Str(format_naive_datetime(*p))
                }
            },
            RawValue::DateOnly(d) => JsonScalar::Str(format_date(*d)),
            RawValue::TimeOnly(t) => JsonScalar::Str(format_time(*t)),
            RawValue::Text(s) => JsonScalar::Str(s.clone()),
            _ => {
                let mut s = String::new();
                s.append("Invalid Date");
                proof {
                    assert(s@ =~= "Invalid Date"@);
                }
                JsonScalar::Str(s)
            },
        }
    } else if contains_str(name, "blob") || contains_str(name, "binary") {
        match raw {
            RawValue::Bytes(b) => {
                if b.len() == 16 {
                    JsonScalar::Str(format_uuid(b))
                } else {
                    JsonScalar::Str(format_hex_payload(b))
                }
            },
            _ => JsonScalar::Str(wrap_name("BinaryErr(", name)),
        }
    } else {
        match raw {
            RawValue::Text(s) => JsonScalar::Str(s.clone()),
            _ => JsonScalar::Str(wrap_name("Binary/Complex (", name)),
        }
    }
}

/// What the SQLite mapper emits.
pub open spec fn map_sqlite_spec(name: Seq<char>, raw: RawVal) -> JsonVal {
    if raw == RawVal::Null {
        JsonVal::Null
    } else if is_bool_name(name) {
        match raw {
            RawVal::Bool(b) => JsonVal::Bool(b),
            _ => JsonVal::Null,
        }
    } else if contains_sub(name, "int"@) || name == "integer"@ {
        match raw {
            RawVal::Int(i) => JsonVal::Int(i),
            _ => JsonVal::Str(num_error_str(name)),
        }
    } else if contains_sub(name, "float"@) || name == "real"@ || name == "double"@ {
        match raw {
            RawVal::Float { finite, repr } => if finite {
                JsonVal::Float(repr)
            } else {
                JsonVal::Null
            },
            _ => JsonVal::Null,
        }
    } else if is_text_name(name) {
        match raw {
            RawVal::Text(s) => JsonVal::Str(s),
            _ => JsonVal::Str(Seq::empty()),
        }
    } else if contains_sub(name, "blob"@) {
        match raw {
            RawVal::Bytes(b) => JsonVal::Str(hex_payload(b)),
            _ => JsonVal::Str("Blob Error"@),
        }
    } else {
        match raw {
            RawVal::Text(s) => JsonVal::Str(s),
            _ => JsonVal::Str(complex_str(name)),
        }
    }
}

/// Maps one SQLite column value.
pub fn map_sqlite_value(name: &str, raw: &RawValue) -> (r: JsonScalar)
    requires
        raw_wf(raw@),
    ensures
        r@ == map_sqlite_spec(name@, raw@),
{
    if let RawValue::Null = raw {
        return JsonScalar::Null;
    }
    if name_is_bool(name) {
        match raw {
            RawValue::Bool(b) => JsonScalar::Bool(*b),
            _ => JsonScalar::Null,
        }
    } else if contains_str(name, "int") || str_eq(name, "integer") {
        match raw {
            RawValue::Int(i) => JsonScalar::IntNum(*i),
            _ => JsonScalar::Str(wrap_name("NumError(", name)),
        }
    } else if contains_str(name, "float") || str_eq(name, "real") || str_eq(name, "double") {
        match raw {
            RawValue::Float { finite, repr } => {
                if *finite {
                    JsonScalar::FloatNum(repr.clone())
                } else {
                    JsonScalar::Null
                }
            },
            _ => JsonScalar::Null,
        }
    } else if type_name_is_text(name) {
        match raw {
            RawValue::Text(s) => JsonScalar::Str(s.clone()),
            _ => JsonScalar::Str(String::new()),
        }
    } else if contains_str(name, "blob") {
        match raw {
            RawValue::Bytes(b) => JsonScalar::Str(format_hex_payload(b)),
            _ => {
                let mut s = String::new();
                s.append("Blob Error");
                proof {
                    assert(s@ =~= "Blob Error"@);
                }
                JsonScalar::Str(s)
            },
        }
    } else {
        match raw {
            RawValue::Text(s) => JsonScalar::Str(s.clone()),
            _ => JsonScalar::Str(wrap_name("Binary/Complex (", name)),
        }
    }
}

} // verus!
