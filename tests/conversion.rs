use duckdb_viewer::{
    assemble_query_result, convert_row, decimal_text, infer_type_from_value, value_to_cell, Cell,
    DbValue, MAX_PROBED_COLUMNS,
};

fn text(s: &str) -> Cell {
    Cell::Text(s.to_string())
}

#[test]
fn test_value_ref_to_json() {
    assert_eq!(value_to_cell(&DbValue::Null), Cell::Null);
    assert_eq!(value_to_cell(&DbValue::Int(42)), Cell::PosInt(42));
    assert_eq!(value_to_cell(&DbValue::Text(b"hello".to_vec())), text("hello"));
}

#[test]
fn integers_keep_their_value() {
    assert_eq!(value_to_cell(&DbValue::TinyInt(-5)), Cell::NegInt(-5));
    assert_eq!(value_to_cell(&DbValue::SmallInt(300)), Cell::PosInt(300));
    assert_eq!(value_to_cell(&DbValue::BigInt(i64::MIN)), Cell::NegInt(i64::MIN));
    assert_eq!(value_to_cell(&DbValue::UTinyInt(255)), Cell::PosInt(255));
    assert_eq!(value_to_cell(&DbValue::USmallInt(7)), Cell::PosInt(7));
    assert_eq!(value_to_cell(&DbValue::UInt(u32::MAX)), Cell::PosInt(u32::MAX as u64));
    assert_eq!(value_to_cell(&DbValue::UBigInt(u64::MAX)), Cell::PosInt(u64::MAX));
    assert_eq!(value_to_cell(&DbValue::Boolean(true)), Cell::Bool(true));
}

#[test]
fn huge_integers_become_text() {
    assert_eq!(value_to_cell(&DbValue::HugeInt(i128::MIN)), text("-170141183460469231731687303715884105728"));
    assert_eq!(value_to_cell(&DbValue::HugeInt(0)), text("0"));
    assert_eq!(value_to_cell(&DbValue::HugeInt(1234567890123)), text("1234567890123"));
}

#[test]
fn reals_decimals_enums_and_others() {
    assert_eq!(value_to_cell(&DbValue::Real(Some("1.5".to_string()))), Cell::Float("1.5".to_string()));
    assert_eq!(value_to_cell(&DbValue::Real(None)), Cell::Null);
    assert_eq!(value_to_cell(&DbValue::Decimal("12.50".to_string())), text("12.50"));
    assert_eq!(value_to_cell(&DbValue::Enum("Red".to_string())), text("Red"));
    assert_eq!(value_to_cell(&DbValue::Other), Cell::Null);
}

#[test]
fn invalid_utf8_is_replaced() {
    assert_eq!(value_to_cell(&DbValue::Text(vec![b'a', 0xff, b'b'])), text("a\u{FFFD}b"));
}

#[test]
fn blob_shows_its_length() {
    assert_eq!(value_to_cell(&DbValue::Blob(vec![1, 2, 3])), text("<3 bytes>"));
    assert_eq!(value_to_cell(&DbValue::Blob(vec![])), text("<0 bytes>"));
}

#[test]
fn timestamp_formats_as_utc() {
    assert_eq!(value_to_cell(&DbValue::Timestamp(0)), text("1970-01-01 00:00:00"));
    assert_eq!(value_to_cell(&DbValue::Timestamp(86_461_500_000)), text("1970-01-02 00:01:01"));
    assert_eq!(value_to_cell(&DbValue::Timestamp(1_700_000_000_000_000)), text("2023-11-14 22:13:20"));
}

#[test]
fn negative_timestamp_with_fraction_falls_back_to_number() {
    assert_eq!(value_to_cell(&DbValue::Timestamp(-1)), text("-1"));
    assert_eq!(value_to_cell(&DbValue::Timestamp(-1_000_000)), text("1969-12-31 23:59:59"));
}

#[test]
fn date_counts_days_from_epoch() {
    assert_eq!(value_to_cell(&DbValue::Date32(0)), text("1970-01-01"));
    assert_eq!(value_to_cell(&DbValue::Date32(19_000)), text("2022-01-08"));
    assert_eq!(value_to_cell(&DbValue::Date32(-1)), text("-1"));
}

#[test]
fn time_of_day() {
    assert_eq!(value_to_cell(&DbValue::Time64(3_661_000_000)), text("01:01:01"));
    assert_eq!(value_to_cell(&DbValue::Time64(0)), text("00:00:00"));
    assert_eq!(value_to_cell(&DbValue::Time64(86_400_000_000)), text("86400000000"));
    assert_eq!(value_to_cell(&DbValue::Time64(-5)), text("-5"));
}

#[test]
fn interval_text() {
    let v = DbValue::Interval { months: 1, days: -2, nanos: 3 };
    assert_eq!(value_to_cell(&v), text("1m -2d 3ns"));
}

#[test]
fn decimal_text_values() {
    assert_eq!(decimal_text(0), "0");
    assert_eq!(decimal_text(-42), "-42");
    assert_eq!(decimal_text(i128::MAX), "170141183460469231731687303715884105727");
}

#[test]
fn inferred_type_names() {
    assert_eq!(infer_type_from_value(&Cell::Null), "Null");
    assert_eq!(infer_type_from_value(&Cell::Bool(false)), "Boolean");
    assert_eq!(infer_type_from_value(&Cell::PosInt(3)), "Integer");
    assert_eq!(infer_type_from_value(&Cell::NegInt(-3)), "Integer");
    assert_eq!(infer_type_from_value(&Cell::PosInt(i64::MAX as u64)), "Integer");
    assert_eq!(infer_type_from_value(&Cell::PosInt(i64::MAX as u64 + 1)), "Float");
    assert_eq!(infer_type_from_value(&Cell::Float("0.5".to_string())), "Float");
    assert_eq!(infer_type_from_value(&text("x")), "String");
}

#[test]
fn rows_are_cut_after_the_probe_limit() {
    let raw: Vec<DbValue> = (0..600).map(DbValue::Int).collect();
    let row = convert_row(&raw);
    assert_eq!(row.len(), MAX_PROBED_COLUMNS);
    assert_eq!(row.len(), 501);
    assert_eq!(row[500], Cell::PosInt(500));
}

#[test]
fn query_result_from_three_rows() {
    let raw = vec![
        vec![DbValue::Int(1), DbValue::Text(b"User 1".to_vec()), DbValue::Null],
        vec![DbValue::Int(2), DbValue::Text(b"User 2".to_vec()), DbValue::Text(b"Osaka".to_vec())],
        vec![DbValue::Int(3), DbValue::Text(b"User 3".to_vec()), DbValue::Text(b"Nagoya".to_vec())],
    ];
    let names = vec!["id".to_string(), "name".to_string(), "city".to_string()];
    let r = assemble_query_result(&raw, &names, 12);
    assert_eq!(r.row_count, 3);
    assert_eq!(r.columns, names);
    assert_eq!(r.column_types, vec!["Integer", "String", "Null"]);
    assert_eq!(r.rows[1], vec![Cell::PosInt(2), text("User 2"), text("Osaka")]);
    assert_eq!(r.execution_time_ms, 12);
}

#[test]
fn query_result_without_rows_has_no_columns() {
    let r = assemble_query_result(&vec![], &vec!["a".to_string()], 0);
    assert_eq!(r.row_count, 0);
    assert!(r.columns.is_empty());
    assert!(r.column_types.is_empty());
    assert!(r.rows.is_empty());
}

#[test]
fn column_count_comes_from_first_nonempty_row() {
    let raw = vec![vec![], vec![DbValue::Int(1), DbValue::Int(2)]];
    let r = assemble_query_result(&raw, &vec!["a".to_string()], 0);
    assert_eq!(r.columns, vec!["a".to_string(), "column_1".to_string()]);
    assert!(r.column_types.is_empty());
    assert_eq!(r.row_count, 2);
}
