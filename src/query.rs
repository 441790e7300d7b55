use vstd::prelude::*;
use crate::cell::{Cell, CellView, DbValue, cell_of, value_to_cell};
use crate::models::QueryResult;
use crate::text::{append_decimal, decimal_of};

verus! {

/// The most values read from one row: probing stops after this many columns.
pub const MAX_PROBED_COLUMNS: usize = 501;

/// How many values of a row of `n` are kept.
pub open spec fn probed_width(n: int) -> int {
    if n < MAX_PROBED_COLUMNS as int { n } else { MAX_PROBED_COLUMNS as int }
}

/// The generic values of the kept part of a row.
pub open spec fn converted_row(raw: Seq<DbValue>) -> Seq<CellView> {
    raw.take(probed_width(raw.len() as int)).map_values(|v: DbValue| cell_of(v))
}

/// The values of a row of cells.
pub open spec fn cells_view(row: Seq<Cell>) -> Seq<CellView> {
    row.map_values(|c: Cell| c@)
}

/// The number of columns of a result: the kept width of the first row that has any value,
/// or zero.
pub open spec fn column_count_of(rows: Seq<Seq<DbValue>>) -> int
    decreases rows.len(),
{
    if rows.len() == 0 {
        0
    } else if probed_width(rows[0].len() as int) != 0 {
        probed_width(rows[0].len() as int)
    } else {
        column_count_of(rows.drop_first())
    }
}

/// The label of column `i`: the statement's name for it, or `column_<i>` where it has none.
pub open spec fn column_label(names: Seq<String>, i: int) -> Seq<char> {
    if 0 <= i < names.len() {
        names[i]@
    } else {
        seq!['c', 'o', 'l', 'u', 'm', 'n', '_'] + decimal_of(i)
    }
}

/// The type name shown for a value.
pub open spec fn value_type_name(c: CellView) -> Seq<char> {
    match c {
        CellView::Null => "Null"@,
        CellView::Bool(_) => "Boolean"@,
        CellView::Int(i) => if i64::MIN <= i <= i64::MAX { "Integer"@ } else { "Float"@ },
        CellView::Float(_) => "Float"@,
        CellView::Text(_) => "String"@,
    }
}

/// The type name of a value: `Integer` for a number that fits in an `i64`, `Float` for any
/// other number.
pub fn infer_type_from_value(c: &Cell) -> (r: String)
    ensures
        r@ == value_type_name(c@),
{
    match c {
        Cell::Null => "Null".to_owned(),
        Cell::Bool(_) => "Boolean".to_owned(),
        Cell::PosInt(u) => if *u <= i64::MAX as u64 {
            "Integer".to_owned()
        } else {
            "Float".to_owned()
        },
        Cell::NegInt(_) => "Integer".to_owned(),
        Cell::Float(_) => "Float".to_owned(),
        Cell::Text(_) => "String".to_owned(),
    }
}

/// The generic values of the kept part of one row.
pub fn convert_row(raw: &Vec<DbValue>) -> (r: Vec<Cell>)
    ensures
        cells_view(r@) == converted_row(raw@),
        forall|j: int| 0 <= j < r@.len() ==> (#[trigger] r@[j]).wf(),
{
    let n = if raw.len() < MAX_PROBED_COLUMNS { raw.len() } else { MAX_PROBED_COLUMNS };
    let mut out: Vec<Cell> = Vec::new();
    let mut j: usize = 0;
    while j < n
        invariant
            n == probed_width(raw@.len() as int),
            n <= raw@.len(),
            j <= n,
            out@.len() == j,
            forall|k: int| 0 <= k < j ==> (#[trigger] out@[k])@ == cell_of(raw@[k]),
            forall|k: int| 0 <= k < j ==> (#[trigger] out@[k]).wf(),
        decreases n - j,
    {
        out.push(value_to_cell(&raw[j]));
        j += 1;
    }
    assert(cells_view(out@) =~= converted_row(raw@));
    out
}

/// The label of column `i`.
pub fn column_label_text(names: &Vec<String>, i: usize) -> (r: String)
    ensures
        r@ == column_label(names@, i as int),
{
    if i < names.len() {
        names[i].clone()
    } else {
        let mut s = String::new();
        proof {
            reveal_strlit("column_");
        }
        s.append("column_");
        append_decimal(i as i128, &mut s);
        assert(s@ =~= column_label(names@, i as int));
        s
    }
}

proof fn lemma_column_count_step(rows: Seq<Seq<DbValue>>, i: int)
    requires
        0 <= i < rows.len(),
        probed_width(rows[i].len() as int) == 0,
    ensures
        column_count_of(rows.subrange(i, rows.len() as int)) == column_count_of(
            rows.subrange(i + 1, rows.len() as int),
        ),
{
    assert(rows.subrange(i, rows.len() as int).drop_first() =~= rows.subrange(
        i + 1,
        rows.len() as int,
    ));
}

/// Assembles a query's answer from the rows the engine returned (each row as every value it
/// offered), the statement's column names, and the time the query took.
///
/// Each row keeps its first [`MAX_PROBED_COLUMNS`] values; the column count is the width of
/// the first row with any value; the type names come from the first row (with no row there
/// are no columns, hence no type names).
pub fn assemble_query_result(raw_rows: &Vec<Vec<DbValue>>, names: &Vec<String>, execution_time_ms: u128) -> (r: QueryResult)
    ensures
        r.row_count == raw_rows@.len(),
        r.rows@.len() == raw_rows@.len(),
        forall|i: int|
            0 <= i < raw_rows@.len() ==> cells_view(#[trigger] r.rows@[i]@) == converted_row(
                raw_rows@[i]@,
            ),
        forall|i: int, j: int|
            0 <= i < r.rows@.len() && 0 <= j < r.rows@[i]@.len() ==> (#[trigger] r.rows@[i]@[j]).wf(),
        r.columns@.len() == column_count_of(raw_rows@.map_values(|row: Vec<DbValue>| row@)),
        forall|k: int| 0 <= k < r.columns@.len() ==> (#[trigger] r.columns@[k])@ == column_label(names@, k),
        raw_rows@.len() > 0 ==> r.column_types@.len() == converted_row(raw_rows@[0]@).len(),
        raw_rows@.len() > 0 ==> forall|k: int|
            0 <= k < r.column_types@.len() ==> (#[trigger] r.column_types@[k])@ == value_type_name(
                converted_row(raw_rows@[0]@)[k],
            ),
        raw_rows@.len() == 0 ==> r.column_types@.len() == 0,
        r.execution_time_ms == execution_time_ms,
{
    let ghost seqs = raw_rows@.map_values(|row: Vec<DbValue>| row@);
    let mut rows: Vec<Vec<Cell>> = Vec::new();
    let mut count: usize = 0;
    assert(seqs.subrange(0, seqs.len() as int) =~= seqs);
    let mut i: usize = 0;
    while i < raw_rows.len()
        invariant
            seqs == raw_rows@.map_values(|row: Vec<DbValue>| row@),
            i <= raw_rows@.len(),
            rows@.len() == i,
            forall|k: int| 0 <= k < i ==> cells_view(#[trigger] rows@[k]@) == converted_row(raw_rows@[k]@),
            forall|k: int, j: int|
                0 <= k < i && 0 <= j < rows@[k]@.len() ==> (#[trigger] rows@[k]@[j]).wf(),
            count <= MAX_PROBED_COLUMNS,
            count != 0 ==> count == column_count_of(seqs),
            count == 0 ==> column_count_of(seqs) == column_count_of(seqs.subrange(i as int, seqs.len() as int)),
        decreases raw_rows@.len() - i,
    {
        let row = convert_row(&raw_rows[i]);
        proof {
            assert(seqs[i as int] == raw_rows@[i as int]@);
            assert(cells_view(row@).len() == row@.len());
            assert(row@.len() == probed_width(seqs[i as int].len() as int));
            if count == 0 {
                if probed_width(seqs[i as int].len() as int) == 0 {
                    lemma_column_count_step(seqs, i as int);
                } else {
                    assert(seqs.subrange(i as int, seqs.len() as int)[0] == seqs[i as int]);
                }
            }
        }
        if count == 0 {
            count = row.len();
        }
        rows.push(row);
        i += 1;
    }
    proof {
        if count == 0 {
            assert(seqs.subrange(i as int, seqs.len() as int).len() == 0);
        }
    }
    let mut columns: Vec<String> = Vec::new();
    let mut k: usize = 0;
    while k < count
        invariant
            k <= count,
            columns@.len() == k,
            forall|m: int| 0 <= m < k ==> (#[trigger] columns@[m])@ == column_label(names@, m),
        decreases count - k,
    {
        columns.push(column_label_text(names, k));
        k += 1;
    }
    let mut column_types: Vec<String> = Vec::new();
    if rows.len() > 0 {
        let first = &rows[0];
        let mut m: usize = 0;
        while m < first.len()
            invariant
                rows@.len() > 0,
                raw_rows@.len() > 0,
                first == rows@[0],
                cells_view(first@) == converted_row(raw_rows@[0]@),
                m <= first@.len(),
                column_types@.len() == m,
                forall|q: int|
                    0 <= q < m ==> (#[trigger] column_types@[q])@ == value_type_name(
                        converted_row(raw_rows@[0]@)[q],
                    ),
            decreases first@.len() - m,
        {
            proof {
                assert(cells_view(first@)[m as int] == first@[m as int]@);
            }
            column_types.push(infer_type_from_value(&first[m]));
            m += 1;
        }
    }
    let row_count = rows.len();
    QueryResult { columns, column_types, rows, row_count, execution_time_ms }
}

} // verus!
