use vstd::prelude::*;
use crate::clock::{
    clock_text, epoch_date_text, format_clock_time, format_epoch_date, format_utc_timestamp,
    opt_text, utc_timestamp_text,
};
use crate::text::{append_decimal, decimal_of, decimal_text, wrap32, wrap_u32};

verus! {

/// A generic value handed to the front end: null, a boolean, an integer number, a
/// floating-point number (held as its JSON text), or a string.
#[derive(Debug, Clone, PartialEq, Eq)]
pub enum Cell {
    Null,
    Bool(bool),
    /// A non-negative integer.
    PosInt(u64),
    /// A negative integer.
    NegInt(i64),
    /// A finite floating-point number, as JSON writes it.
    Float(String),
    Text(String),
}

/// The mathematical value of a [`Cell`].
pub enum CellView {
    Null,
    Bool(bool),
    Int(int),
    Float(Seq<char>),
    Text(Seq<char>),
}

impl View for Cell {
    type V = CellView;

    open spec fn view(&self) -> CellView {
        match self {
            Cell::Null => CellView::Null,
            Cell::Bool(b) => CellView::Bool(*b),
            Cell::PosInt(u) => CellView::Int(*u as int),
            Cell::NegInt(i) => CellView::Int(*i as int),
            Cell::Float(t) => CellView::Float(t@),
            Cell::Text(t) => CellView::Text(t@),
        }
    }
}

impl Cell {
    /// Every integer has one form: a negative one is `NegInt`, any other `PosInt`.
    pub open spec fn wf(&self) -> bool {
        match self {
            Cell::NegInt(i) => *i < 0,
            _ => true,
        }
    }

    /// The cell holding the integer `i`.
    pub fn from_i64(i: i64) -> (r: Cell)
        ensures
            r@ == CellView::Int(i as int),
            r.wf(),
    {
        if i < 0 {
            Cell::NegInt(i)
        } else {
            Cell::PosInt(i as u64)
        }
    }

    /// A copy of the cell.
    pub fn duplicate(&self) -> (r: Cell)
        ensures
            r == *self,
    {
        match self {
            Cell::Null => Cell::Null,
            Cell::Bool(b) => Cell::Bool(*b),
            Cell::PosInt(u) => Cell::PosInt(*u),
            Cell::NegInt(i) => Cell::NegInt(*i),
            Cell::Float(t) => Cell::Float(t.clone()),
            Cell::Text(t) => Cell::Text(t.clone()),
        }
    }

    /// The cell holding the integer `u`.
    pub fn from_u64(u: u64) -> (r: Cell)
        ensures
            r@ == CellView::Int(u as int),
            r.wf(),
    {
        Cell::PosInt(u)
    }
}

/// A value as the database engine hands it out, one variant per kind of column value.
#[derive(Debug, Clone, PartialEq, Eq)]
pub enum DbValue {
    Null,
    Boolean(bool),
    TinyInt(i8),
    SmallInt(i16),
    Int(i32),
    BigInt(i64),
    HugeInt(i128),
    UTinyInt(u8),
    USmallInt(u16),
    UInt(u32),
    UBigInt(u64),
    /// A single or double precision number: its JSON text when it is finite, else `None`.
    Real(Option<String>),
    /// A fixed-point decimal, as its decimal text.
    Decimal(String),
    Text(Vec<u8>),
    Blob(Vec<u8>),
    /// Microseconds since the Unix epoch.
    Timestamp(i64),
    /// Days since 1970-01-01.
    Date32(i32),
    /// Microseconds since midnight.
    Time64(i64),
    Interval { months: i32, days: i32, nanos: i64 },
    /// An enumeration value, as its debug text.
    Enum(String),
    /// A value with no generic form (lists, structs, maps and the like).
    Other,
}

/// The characters of a byte string decoded as UTF-8, each invalid sequence replaced by
/// U+FFFD.
pub uninterp spec fn utf8_lossy(b: Seq<u8>) -> Seq<char>;

/// Relies on `String::from_utf8_lossy`.
#[verifier::external_body]
fn decode_utf8_lossy(b: &[u8]) -> (r: String)
    ensures
        r@ == utf8_lossy(b@),
{
    String::from_utf8_lossy(b).into_owned()
}

/// Rust's `a / b` on integers: the quotient rounded toward zero.
pub open spec fn trunc_div(a: int, b: int) -> int {
    if a >= 0 { a / b } else { -((-a) / b) }
}

/// Rust's `a % b` on integers: the remainder with the sign of `a`.
pub open spec fn trunc_rem(a: int, b: int) -> int {
    a - b * trunc_div(a, b)
}

/// `x` reduced modulo 2^64, as a wrapping cast to `u64` gives it.
pub open spec fn wrap64(x: int) -> int {
    x % 0x1_0000_0000_0000_0000
}

/// The text of a blob: its length in bytes within angle brackets.
pub open spec fn blob_text(len: int) -> Seq<char> {
    seq!['<'] + decimal_of(len) + seq![' ', 'b', 'y', 't', 'e', 's', '>']
}

/// The text of an interval: months, days and nanoseconds.
pub open spec fn interval_text(months: int, days: int, nanos: int) -> Seq<char> {
    decimal_of(months) + seq!['m', ' '] + decimal_of(days) + seq!['d', ' '] + decimal_of(nanos)
        + seq!['n', 's']
}

/// A text where there is one, else the decimal text of `fallback`.
pub open spec fn text_or_decimal(t: Option<Seq<char>>, fallback: int) -> CellView {
    match t {
        Some(s) => CellView::Text(s),
        None => CellView::Text(decimal_of(fallback)),
    }
}

/// The generic value of a database value.
pub open spec fn cell_of(v: DbValue) -> CellView {
    match v {
        DbValue::Null => CellView::Null,
        DbValue::Boolean(b) => CellView::Bool(b),
        DbValue::TinyInt(i) => CellView::Int(i as int),
        DbValue::SmallInt(i) => CellView::Int(i as int),
        DbValue::Int(i) => CellView::Int(i as int),
        DbValue::BigInt(i) => CellView::Int(i as int),
        DbValue::HugeInt(i) => CellView::Text(decimal_of(i as int)),
        DbValue::UTinyInt(i) => CellView::Int(i as int),
        DbValue::USmallInt(i) => CellView::Int(i as int),
        DbValue::UInt(i) => CellView::Int(i as int),
        DbValue::UBigInt(i) => CellView::Int(i as int),
        DbValue::Real(o) => match o {
            Some(t) => CellView::Float(t@),
            None => CellView::Null,
        },
        DbValue::Decimal(t) => CellView::Text(t@),
        DbValue::Text(b) => CellView::Text(utf8_lossy(b@)),
        DbValue::Blob(b) => CellView::Text(blob_text(b@.len() as int)),
        DbValue::Timestamp(micros) => text_or_decimal(
            utc_timestamp_text(
                trunc_div(micros as int, 1_000_000),
                wrap32(trunc_rem(micros as int, 1_000_000) * 1000),
            ),
            micros as int,
        ),
        DbValue::Date32(days) => text_or_decimal(epoch_date_text(wrap64(days as int)), days as int),
        DbValue::Time64(micros) => text_or_decimal(
            clock_text(
                wrap32(trunc_div(micros as int, 1_000_000)),
                wrap32(trunc_rem(micros as int, 1_000_000) * 1000),
            ),
            micros as int,
        ),
        DbValue::Interval { months, days, nanos } => CellView::Text(
            interval_text(months as int, days as int, nanos as int),
        ),
        DbValue::Enum(t) => CellView::Text(t@),
        DbValue::Other => CellView::Null,
    }
}

fn text_or_decimal_cell(t: Option<String>, fallback: i64) -> (r: Cell)
    ensures
        r@ == text_or_decimal(opt_text(t), fallback as int),
        r.wf(),
{
    match t {
        Some(s) => Cell::Text(s),
        None => Cell::Text(decimal_text(fallback as i128)),
    }
}

/// Converts a database value to the generic value the front end receives.
pub fn value_to_cell(v: &DbValue) -> (r: Cell)
    ensures
        r@ == cell_of(*v),
        r.wf(),
{
    match v {
        DbValue::Null => Cell::Null,
        DbValue::Boolean(b) => Cell::Bool(*b),
        DbValue::TinyInt(i) => Cell::from_i64(*i as i64),
        DbValue::SmallInt(i) => Cell::from_i64(*i as i64),
        DbValue::Int(i) => Cell::from_i64(*i as i64),
        DbValue::BigInt(i) => Cell::from_i64(*i),
        DbValue::HugeInt(i) => Cell::Text(decimal_text(*i)),
        DbValue::UTinyInt(i) => Cell::from_u64(*i as u64),
        DbValue::USmallInt(i) => Cell::from_u64(*i as u64),
        DbValue::UInt(i) => Cell::from_u64(*i as u64),
        DbValue::UBigInt(i) => Cell::from_u64(*i),
        DbValue::Real(o) => match o {
            Some(t) => Cell::Float(t.clone()),
            None => Cell::Null,
        },
        DbValue::Decimal(t) => Cell::Text(t.clone()),
        DbValue::Text(b) => Cell::Text(decode_utf8_lossy(b.as_slice())),
        DbValue::Blob(b) => {
            let mut s = String::new();
            proof {
                reveal_strlit("<");
                reveal_strlit(" bytes>");
            }
            s.append("<");
            append_decimal(b.len() as i128, &mut s);
            s.append(" bytes>");
            assert(s@ =~= blob_text(b@.len() as int));
            Cell::Text(s)
        },
        DbValue::Timestamp(micros) => {
            let secs = *micros / 1_000_000;
            let nsecs = wrap_u32((*micros % 1_000_000) * 1000);
            text_or_decimal_cell(format_utc_timestamp(secs, nsecs), *micros)
        },
        DbValue::Date32(days) => {
            let d: u64 = if *days >= 0 {
                *days as u64
            } else {
                (*days as i128 + 0x1_0000_0000_0000_0000) as u64
            };
            text_or_decimal_cell(format_epoch_date(d), *days as i64)
        },
        DbValue::Time64(micros) => {
            let secs = wrap_u32(*micros / 1_000_000);
            let nanos = wrap_u32((*micros % 1_000_000) * 1000);
            text_or_decimal_cell(format_clock_time(secs, nanos), *micros)
        },
        DbValue::Interval { months, days, nanos } => {
            let mut s = String::new();
            proof {
                reveal_strlit("m ");
                reveal_strlit("d ");
                reveal_strlit("ns");
            }
            append_decimal(*months as i128, &mut s);
            s.append("m ");
            append_decimal(*days as i128, &mut s);
            s.append("d ");
            append_decimal(*nanos as i128, &mut s);
            s.append("ns");
            assert(s@ =~= interval_text(*months as int, *days as int, *nanos as int));
            Cell::Text(s)
        },
        DbValue::Enum(t) => Cell::Text(t.clone()),
        DbValue::Other => Cell::Null,
    }
}

} // verus!
