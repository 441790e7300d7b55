use vstd::prelude::*;
use crate::cell::Cell;

verus! {

/// An opened database: its path and the names of its tables.
#[derive(Debug, Clone, PartialEq, Eq)]
pub struct DatabaseInfo {
    pub path: String,
    pub tables: Vec<String>,
}

/// A table and the number of its rows.
#[derive(Debug, Clone, PartialEq, Eq)]
pub struct TableInfo {
    pub name: String,
    pub row_count: i64,
}

/// One column of a table's schema.
#[derive(Debug, Clone, PartialEq, Eq)]
pub struct ColumnInfo {
    pub name: String,
    pub data_type: String,
    pub nullable: bool,
    pub default_value: Option<String>,
    pub is_primary_key: bool,
}

/// The columns of a table.
#[derive(Debug, Clone, PartialEq, Eq)]
pub struct TableSchema {
    pub table_name: String,
    pub columns: Vec<ColumnInfo>,
}

/// The answer to a query: column names, a type name per column, the rows, and timing.
#[derive(Debug, Clone, PartialEq, Eq)]
pub struct QueryResult {
    pub columns: Vec<String>,
    pub column_types: Vec<String>,
    pub rows: Vec<Vec<Cell>>,
    pub row_count: usize,
    pub execution_time_ms: u128,
}

/// Options of an export, gathered in one value.
#[derive(Debug, Clone, PartialEq, Eq)]
pub struct ExportOptions {
    pub file_path: String,
    pub format: ExportFormat,
    pub query: Option<String>,
    pub table_name: Option<String>,
}

/// The file formats a query result can be exported to.
#[derive(Debug, Clone, Copy, PartialEq, Eq)]
pub enum ExportFormat {
    Csv,
    Excel,
    Parquet,
    Json,
}

/// Options of an import, gathered in one value.
#[derive(Debug, Clone, PartialEq, Eq)]
pub struct ImportOptions {
    pub file_path: String,
    pub table_name: String,
    pub format: ImportFormat,
}

/// The file formats a table can be imported from.
#[derive(Debug, Clone, Copy, PartialEq, Eq)]
pub enum ImportFormat {
    Csv,
    Parquet,
    Excel,
}

} // verus!
