use vstd::prelude::*;
use crate::cell::{Cell, CellView};
use crate::models::QueryResult;
use crate::text::{decimal_of, decimal_text};

verus! {

/// The text of a value in a CSV file: empty for null, the string itself for a string, the
/// JSON text of anything else.
pub open spec fn csv_field_of(c: CellView) -> Seq<char> {
    match c {
        CellView::Null => Seq::empty(),
        CellView::Bool(b) => if b { "true"@ } else { "false"@ },
        CellView::Int(i) => decimal_of(i),
        CellView::Float(t) => t,
        CellView::Text(t) => t,
    }
}

/// The text of a value in a CSV file.
pub fn csv_field(c: &Cell) -> (r: String)
    ensures
        r@ == csv_field_of(c@),
{
    match c {
        Cell::Null => String::new(),
        Cell::Bool(b) => if *b {
            "true".to_owned()
        } else {
            "false".to_owned()
        },
        Cell::PosInt(u) => decimal_text(*u as i128),
        Cell::NegInt(i) => decimal_text(*i as i128),
        Cell::Float(t) => t.clone(),
        Cell::Text(t) => t.clone(),
    }
}

/// The records of a CSV export: the column names, then one record per row.
pub fn csv_records(result: &QueryResult) -> (r: Vec<Vec<String>>)
    ensures
        r@.len() == result.rows@.len() + 1,
        r@[0]@ == result.columns@,
        forall|i: int|
            0 <= i < result.rows@.len() ==> (#[trigger] r@[i + 1])@.len() == result.rows@[i]@.len(),
        forall|i: int, j: int|
            0 <= i < result.rows@.len() && 0 <= j < result.rows@[i]@.len()
                ==> (#[trigger] r@[i + 1]@[j])@ == csv_field_of(result.rows@[i]@[j]@),
{
    let mut out: Vec<Vec<String>> = Vec::new();
    out.push(result.columns.clone());
    let mut i: usize = 0;
    while i < result.rows.len()
        invariant
            i <= result.rows@.len(),
            out@.len() == i + 1,
            out@[0]@ == result.columns@,
            forall|k: int|
                0 <= k < i ==> (#[trigger] out@[k + 1])@.len() == result.rows@[k]@.len(),
            forall|k: int, j: int|
                0 <= k < i && 0 <= j < result.rows@[k]@.len()
                    ==> (#[trigger] out@[k + 1]@[j])@ == csv_field_of(result.rows@[k]@[j]@),
        decreases result.rows@.len() - i,
    {
        let row = &result.rows[i];
        let mut record: Vec<String> = Vec::new();
        let mut j: usize = 0;
        while j < row.len()
            invariant
                j <= row@.len(),
                record@.len() == j,
                forall|m: int| 0 <= m < j ==> (#[trigger] record@[m])@ == csv_field_of(row@[m]@),
            decreases row@.len() - j,
        {
            record.push(csv_field(&row[j]));
            j += 1;
        }
        out.push(record);
        i += 1;
    }
    out
}

/// What one spreadsheet cell receives.
#[derive(Debug, Clone, PartialEq, Eq)]
pub enum SheetCell {
    Text(String),
    Boolean(bool),
    /// A number that fits in an `i64`.
    Integer(i64),
    /// A number above `i64::MAX`.
    Unsigned(u64),
    /// A floating-point number, as its JSON text.
    Real(String),
}

/// The mathematical value of a spreadsheet cell.
pub enum SheetValue {
    Text(Seq<char>),
    Boolean(bool),
    Number(int),
    Real(Seq<char>),
}

impl View for SheetCell {
    type V = SheetValue;

    open spec fn view(&self) -> SheetValue {
        match self {
            SheetCell::Text(t) => SheetValue::Text(t@),
            SheetCell::Boolean(b) => SheetValue::Boolean(*b),
            SheetCell::Integer(i) => SheetValue::Number(*i as int),
            SheetCell::Unsigned(u) => SheetValue::Number(*u as int),
            SheetCell::Real(t) => SheetValue::Real(t@),
        }
    }
}

/// The spreadsheet cell of a value: null becomes an empty text, a string or a boolean stays
/// one, and a number stays a number.
pub open spec fn sheet_value_of(c: CellView) -> SheetValue {
    match c {
        CellView::Null => SheetValue::Text(Seq::empty()),
        CellView::Bool(b) => SheetValue::Boolean(b),
        CellView::Int(i) => SheetValue::Number(i),
        CellView::Float(t) => SheetValue::Real(t),
        CellView::Text(t) => SheetValue::Text(t),
    }
}

/// The spreadsheet cell of a value.
pub fn sheet_cell(c: &Cell) -> (r: SheetCell)
    ensures
        r@ == sheet_value_of(c@),
{
    match c {
        Cell::Null => SheetCell::Text(String::new()),
        Cell::Bool(b) => SheetCell::Boolean(*b),
        Cell::PosInt(u) => if *u <= i64::MAX as u64 {
            SheetCell::Integer(*u as i64)
        } else {
            SheetCell::Unsigned(*u)
        },
        Cell::NegInt(i) => SheetCell::Integer(*i),
        Cell::Float(t) => SheetCell::Real(t.clone()),
        Cell::Text(t) => SheetCell::Text(t.clone()),
    }
}

/// The cells of a spreadsheet export, row by row: the column names in the first row, then
/// one row per result row.
pub fn sheet_rows(result: &QueryResult) -> (r: Vec<Vec<SheetCell>>)
    ensures
        r@.len() == result.rows@.len() + 1,
        r@[0]@.len() == result.columns@.len(),
        forall|j: int|
            0 <= j < result.columns@.len() ==> (#[trigger] r@[0]@[j])@ == SheetValue::Text(result.columns@[j]@),
        forall|i: int|
            0 <= i < result.rows@.len() ==> (#[trigger] r@[i + 1])@.len() == result.rows@[i]@.len(),
        forall|i: int, j: int|
            0 <= i < result.rows@.len() && 0 <= j < result.rows@[i]@.len()
                ==> (#[trigger] r@[i + 1]@[j])@ == sheet_value_of(result.rows@[i]@[j]@),
{
    let mut out: Vec<Vec<SheetCell>> = Vec::new();
    let mut header: Vec<SheetCell> = Vec::new();
    let mut j: usize = 0;
    while j < result.columns.len()
        invariant
            j <= result.columns@.len(),
            header@.len() == j,
            forall|m: int|
                0 <= m < j ==> (#[trigger] header@[m])@ == SheetValue::Text(result.columns@[m]@),
        decreases result.columns@.len() - j,
    {
        header.push(SheetCell::Text(result.columns[j].clone()));
        j += 1;
    }
    out.push(header);
    let mut i: usize = 0;
    while i < result.rows.len()
        invariant
            i <= result.rows@.len(),
            out@.len() == i + 1,
            out@[0]@.len() == result.columns@.len(),
            forall|m: int|
                0 <= m < result.columns@.len() ==> (#[trigger] out@[0]@[m])@ == SheetValue::Text(result.columns@[m]@),
            forall|k: int|
                0 <= k < i ==> (#[trigger] out@[k + 1])@.len() == result.rows@[k]@.len(),
            forall|k: int, m: int|
                0 <= k < i && 0 <= m < result.rows@[k]@.len()
                    ==> (#[trigger] out@[k + 1]@[m])@ == sheet_value_of(result.rows@[k]@[m]@),
        decreases result.rows@.len() - i,
    {
        let row = &result.rows[i];
        let mut cells: Vec<SheetCell> = Vec::new();
        let mut m: usize = 0;
        while m < row.len()
            invariant
                m <= row@.len(),
                cells@.len() == m,
                forall|q: int|
                    0 <= q < m ==> (#[trigger] cells@[q])@ == sheet_value_of(row@[q]@),
            decreases row@.len() - m,
        {
            cells.push(sheet_cell(&row[m]));
            m += 1;
        }
        out.push(cells);
        i += 1;
    }
    out
}

/// The fields of a JSON record: each value of the row under the name of its column, for the
/// columns that have a name.
pub fn json_record(columns: &Vec<String>, row: &Vec<Cell>) -> (r: Vec<(String, Cell)>)
    ensures
        r@.len() == if row@.len() < columns@.len() { row@.len() } else { columns@.len() },
        forall|j: int|
            0 <= j < r@.len() ==> (#[trigger] r@[j]).0 == columns@[j] && r@[j].1 == row@[j],
{
    let n = if row.len() < columns.len() { row.len() } else { columns.len() };
    let mut out: Vec<(String, Cell)> = Vec::new();
    let mut j: usize = 0;
    while j < n
        invariant
            n <= row@.len(),
            n <= columns@.len(),
            n == if row@.len() < columns@.len() { row@.len() } else { columns@.len() },
            j <= n,
            out@.len() == j,
            forall|m: int| 0 <= m < j ==> (#[trigger] out@[m]).0 == columns@[m] && out@[m].1 == row@[m],
        decreases n - j,
    {
        out.push((columns[j].clone(), row[j].duplicate()));
        j += 1;
    }
    out
}

} // verus!
