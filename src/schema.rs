use vstd::prelude::*;
use crate::models::{ColumnInfo, TableInfo, TableSchema};

verus! {

/// One row of the engine's `table_info` answer, each field as far as it could be read.
#[derive(Debug, Clone, PartialEq, Eq)]
pub struct RawColumn {
    pub name: Option<String>,
    pub data_type: Option<String>,
    pub not_null: Option<bool>,
    pub default_value: Option<String>,
    pub primary_key: Option<bool>,
}

/// The column a `table_info` row describes: none where its name, type or null flag could not
/// be read; no primary key where that flag could not be read.
pub open spec fn column_of(r: RawColumn) -> Option<ColumnInfo> {
    if r.name is Some && r.data_type is Some && r.not_null is Some {
        Some(
            ColumnInfo {
                name: r.name->Some_0,
                data_type: r.data_type->Some_0,
                nullable: !r.not_null->Some_0,
                default_value: r.default_value,
                is_primary_key: match r.primary_key {
                    Some(b) => b,
                    None => false,
                },
            },
        )
    } else {
        None
    }
}

/// The columns that the rows describe, in order, the unreadable rows left out.
pub open spec fn columns_of(rows: Seq<RawColumn>) -> Seq<ColumnInfo>
    decreases rows.len(),
{
    if rows.len() == 0 {
        Seq::empty()
    } else {
        let before = columns_of(rows.drop_last());
        match column_of(rows.last()) {
            Some(c) => before.push(c),
            None => before,
        }
    }
}

fn clone_text(o: &Option<String>) -> (r: Option<String>)
    ensures
        r == *o,
{
    match o {
        Some(s) => Some(s.clone()),
        None => None,
    }
}

/// The column a `table_info` row describes, if it could be read.
pub fn column_from_raw(r: &RawColumn) -> (c: Option<ColumnInfo>)
    ensures
        c == column_of(*r),
{
    match (&r.name, &r.data_type, &r.not_null) {
        (Some(name), Some(data_type), Some(not_null)) => Some(
            ColumnInfo {
                name: name.clone(),
                data_type: data_type.clone(),
                nullable: !*not_null,
                default_value: clone_text(&r.default_value),
                is_primary_key: match r.primary_key {
                    Some(b) => b,
                    None => false,
                },
            },
        ),
        _ => None,
    }
}

/// The schema of `table_name` from the engine's `table_info` rows.
pub fn table_schema_from_rows(table_name: String, rows: &Vec<RawColumn>) -> (r: TableSchema)
    ensures
        r.table_name == table_name,
        r.columns@ == columns_of(rows@),
{
    let mut columns: Vec<ColumnInfo> = Vec::new();
    let mut i: usize = 0;
    while i < rows.len()
        invariant
            i <= rows@.len(),
            columns@ == columns_of(rows@.take(i as int)),
        decreases rows@.len() - i,
    {
        proof {
            assert(rows@.take(i + 1).drop_last() =~= rows@.take(i as int));
            assert(rows@.take(i + 1).last() == rows@[i as int]);
        }
        match column_from_raw(&rows[i]) {
            Some(c) => columns.push(c),
            None => {},
        }
        i += 1;
    }
    assert(rows@.take(rows@.len() as int) =~= rows@);
    TableSchema { table_name, columns }
}

/// The tables with their row counts; a count that could not be read shows as zero.
pub fn table_infos(names: &Vec<String>, counts: &Vec<Option<i64>>) -> (r: Vec<TableInfo>)
    requires
        names@.len() == counts@.len(),
    ensures
        r@.len() == names@.len(),
        forall|i: int|
            0 <= i < r@.len() ==> #[trigger] r@[i] == (TableInfo {
                name: names@[i],
                row_count: match counts@[i] {
                    Some(n) => n,
                    None => 0,
                },
            }),
{
    let mut out: Vec<TableInfo> = Vec::new();
    let mut i: usize = 0;
    while i < names.len()
        invariant
            names@.len() == counts@.len(),
            i <= names@.len(),
            out@.len() == i,
            forall|k: int|
                0 <= k < i ==> #[trigger] out@[k] == (TableInfo {
                    name: names@[k],
                    row_count: match counts@[k] {
                        Some(n) => n,
                        None => 0,
                    },
                }),
        decreases names@.len() - i,
    {
        let row_count: i64 = match counts[i] {
            Some(n) => n,
            None => 0,
        };
        out.push(TableInfo { name: names[i].clone(), row_count });
        i += 1;
    }
    out
}

} // verus!
