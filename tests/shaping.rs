use duckdb_viewer::{
    csv_field, csv_records, json_record, sheet_cell, sheet_rows, Cell, QueryResult, SheetCell,
};

fn sample() -> QueryResult {
    QueryResult {
        columns: vec!["id".to_string(), "name".to_string(), "ok".to_string()],
        column_types: vec!["Integer".to_string(), "String".to_string(), "Boolean".to_string()],
        rows: vec![
            vec![Cell::NegInt(-1), Cell::Text("a,b".to_string()), Cell::Bool(true)],
            vec![Cell::PosInt(2), Cell::Null, Cell::Float("2.5".to_string())],
        ],
        row_count: 2,
        execution_time_ms: 1,
    }
}

#[test]
fn csv_fields() {
    assert_eq!(csv_field(&Cell::Null), "");
    assert_eq!(csv_field(&Cell::Bool(false)), "false");
    assert_eq!(csv_field(&Cell::NegInt(-12)), "-12");
    assert_eq!(csv_field(&Cell::PosInt(u64::MAX)), "18446744073709551615");
    assert_eq!(csv_field(&Cell::Float("0.25".to_string())), "0.25");
    assert_eq!(csv_field(&Cell::Text("x".to_string())), "x");
}

#[test]
fn csv_records_start_with_header() {
    let r = csv_records(&sample());
    assert_eq!(r.len(), 3);
    assert_eq!(r[0], vec!["id", "name", "ok"]);
    assert_eq!(r[1], vec!["-1", "a,b", "true"]);
    assert_eq!(r[2], vec!["2", "", "2.5"]);
}

#[test]
fn sheet_cells() {
    assert_eq!(sheet_cell(&Cell::Null), SheetCell::Text(String::new()));
    assert_eq!(sheet_cell(&Cell::PosInt(5)), SheetCell::Integer(5));
    assert_eq!(sheet_cell(&Cell::PosInt(u64::MAX)), SheetCell::Unsigned(u64::MAX));
    assert_eq!(sheet_cell(&Cell::NegInt(-5)), SheetCell::Integer(-5));
    assert_eq!(sheet_cell(&Cell::Bool(true)), SheetCell::Boolean(true));
    let rows = sheet_rows(&sample());
    assert_eq!(rows.len(), 3);
    assert_eq!(rows[0][1], SheetCell::Text("name".to_string()));
    assert_eq!(rows[2][2], SheetCell::Real("2.5".to_string()));
}

#[test]
fn json_record_pairs_names_and_values() {
    let s = sample();
    let rec = json_record(&s.columns, &s.rows[0]);
    assert_eq!(rec.len(), 3);
    assert_eq!(rec[0], ("id".to_string(), Cell::NegInt(-1)));
    let short = json_record(&vec!["only".to_string()], &s.rows[1]);
    assert_eq!(short, vec![("only".to_string(), Cell::PosInt(2))]);
}
