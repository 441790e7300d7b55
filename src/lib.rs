//! The logic behind a desktop viewer of DuckDB databases: the active database path, the SQL
//! the viewer sends to the engine, the conversion of the engine's values into generic values,
//! the assembly of query answers and schemas, and the shaping of answers for export.

pub mod cell;
pub mod clock;
pub mod db;
pub mod export;
pub mod models;
pub mod query;
pub mod samples;
pub mod schema;
pub mod sql;
pub mod text;

pub use cell::{Cell, DbValue, value_to_cell};
pub use db::DatabaseManager;
pub use export::{csv_field, csv_records, json_record, sheet_cell, sheet_rows, SheetCell};
pub use models::{
    ColumnInfo, DatabaseInfo, ExportFormat, ExportOptions, ImportFormat, ImportOptions,
    QueryResult, TableInfo, TableSchema,
};
pub use query::{
    assemble_query_result, column_label_text, convert_row, infer_type_from_value,
    MAX_PROBED_COLUMNS,
};
pub use samples::{sample_data_script, split_statements};
pub use schema::{column_from_raw, table_infos, table_schema_from_rows, RawColumn};
pub use sql::{
    count_rows_sql, export_parquet_sql, import_csv_sql, import_excel_sql, import_parquet_sql,
    table_data_sql, table_info_sql, INSTALL_SPATIAL_SQL, LOAD_SPATIAL_SQL, TABLE_NAMES_SQL,
};
pub use text::decimal_text;
