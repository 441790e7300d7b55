use vstd::prelude::*;
use crate::text::{append_decimal, decimal_of};

verus! {

/// Lists the base tables of the main schema, one name per row.
pub const TABLE_NAMES_SQL: &'static str = "SELECT table_name FROM information_schema.tables WHERE table_schema = 'main' AND table_type = 'BASE TABLE'";

/// Installs the engine's spatial extension, which reads spreadsheets.
pub const INSTALL_SPATIAL_SQL: &'static str = "INSTALL spatial";

/// Loads the engine's spatial extension.
pub const LOAD_SPATIAL_SQL: &'static str = "LOAD spatial";

/// Counts the rows of a table.
pub fn count_rows_sql(table_name: &str) -> (r: String)
    ensures
        r@ == "SELECT COUNT(*) FROM \""@ + table_name@ + "\""@,
{
    let mut s = "SELECT COUNT(*) FROM \"".to_owned();
    s.append(table_name);
    s.append("\"");
    s
}

/// Asks the engine for the columns of a table.
pub fn table_info_sql(table_name: &str) -> (r: String)
    ensures
        r@ == "PRAGMA table_info('"@ + table_name@ + "')"@,
{
    let mut s = "PRAGMA table_info('".to_owned();
    s.append(table_name);
    s.append("')");
    s
}

/// Reads one page of a table: `limit` rows after the first `offset`.
pub fn table_data_sql(table_name: &str, limit: usize, offset: usize) -> (r: String)
    ensures
        r@ == "SELECT * FROM \""@ + table_name@ + "\" LIMIT "@ + decimal_of(limit as int)
            + " OFFSET "@ + decimal_of(offset as int),
{
    let mut s = "SELECT * FROM \"".to_owned();
    s.append(table_name);
    s.append("\" LIMIT ");
    append_decimal(limit as i128, &mut s);
    s.append(" OFFSET ");
    append_decimal(offset as i128, &mut s);
    s
}

/// The statement that creates `table_name`, if it does not exist, from what the engine's
/// reader `reader` makes of `file_path` (with `extra` after the path).
pub open spec fn create_from_sql(table_name: Seq<char>, reader: Seq<char>, file_path: Seq<char>, extra: Seq<char>) -> Seq<char> {
    "CREATE TABLE IF NOT EXISTS \""@ + table_name + "\" AS SELECT * FROM "@ + reader + "('"@
        + file_path + "'"@ + extra + ")"@
}

fn create_from(table_name: &str, reader: &str, file_path: &str, extra: &str) -> (r: String)
    ensures
        r@ == create_from_sql(table_name@, reader@, file_path@, extra@),
{
    let mut s = "CREATE TABLE IF NOT EXISTS \"".to_owned();
    s.append(table_name);
    s.append("\" AS SELECT * FROM ");
    s.append(reader);
    s.append("('");
    s.append(file_path);
    s.append("'");
    s.append(extra);
    s.append(")");
    s
}

/// Creates a table from a CSV file, the column types detected by the engine.
pub fn import_csv_sql(file_path: &str, table_name: &str) -> (r: String)
    ensures
        r@ == create_from_sql(table_name@, "read_csv_auto"@, file_path@, Seq::empty()),
{
    let r = create_from(table_name, "read_csv_auto", file_path, "");
    proof {
        reveal_strlit("");
    }
    r
}

/// Creates a table from a Parquet file.
pub fn import_parquet_sql(file_path: &str, table_name: &str) -> (r: String)
    ensures
        r@ == create_from_sql(table_name@, "read_parquet"@, file_path@, Seq::empty()),
{
    let r = create_from(table_name, "read_parquet", file_path, "");
    proof {
        reveal_strlit("");
    }
    r
}

/// Creates a table from a spreadsheet, from the named sheet where one is given; the
/// statement ends with a semicolon.
pub fn import_excel_sql(file_path: &str, table_name: &str, sheet_name: Option<&str>) -> (r: String)
    ensures
        r@ == create_from_sql(
            table_name@,
            "st_read"@,
            file_path@,
            match sheet_name {
                Some(sheet) => ", sheet_name='"@ + sheet@ + "'"@,
                None => Seq::empty(),
            },
        ) + ";"@,
{
    let mut extra = String::new();
    match sheet_name {
        Some(sheet) => {
            extra.append(", sheet_name='");
            extra.append(sheet);
            extra.append("'");
        },
        None => {},
    }
    let mut s = create_from(table_name, "st_read", file_path, extra.as_str());
    s.append(";");
    s
}

/// Writes what `query` returns to a Parquet file through the engine's `COPY`.
pub fn export_parquet_sql(query: &str, file_path: &str) -> (r: String)
    ensures
        r@ == "COPY ("@ + query@ + ") TO '"@ + file_path@ + "' (FORMAT PARQUET)"@,
{
    let mut s = "COPY (".to_owned();
    s.append(query);
    s.append(") TO '");
    s.append(file_path);
    s.append("' (FORMAT PARQUET)");
    s
}

} // verus!
