use duckdb_viewer::{
    column_from_raw, table_infos, table_schema_from_rows, ColumnInfo, DatabaseInfo,
    DatabaseManager, RawColumn, TableInfo,
};

#[test]
fn manager_starts_empty_and_last_write_wins() {
    let mut m = DatabaseManager::new();
    assert_eq!(m.get_path(), None);
    assert_eq!(m.selected_path(), Err("No database selected".to_string()));
    m.set_path(Some("a.duckdb".to_string()));
    m.set_path(Some("b.duckdb".to_string()));
    assert_eq!(m.get_path(), Some("b.duckdb".to_string()));
    assert_eq!(m.selected_path(), Ok("b.duckdb".to_string()));
    m.set_path(None);
    assert_eq!(m.get_path(), None);
    assert_eq!(DatabaseManager::default().get_path(), None);
}

#[test]
fn open_sets_path_only_on_success() {
    let mut m = DatabaseManager::new();
    let r = m.finish_open("x.duckdb".to_string(), Err("Failed to open database: boom".to_string()));
    assert_eq!(r, Err("Failed to open database: boom".to_string()));
    assert_eq!(m.get_path(), None);
    let r = m.finish_open("x.duckdb".to_string(), Ok(vec!["users".to_string()]));
    assert_eq!(
        r,
        Ok(DatabaseInfo { path: "x.duckdb".to_string(), tables: vec!["users".to_string()] })
    );
    assert_eq!(m.get_path(), Some("x.duckdb".to_string()));
}

#[test]
fn create_gives_empty_database() {
    let mut m = DatabaseManager::new();
    m.set_path(Some("old.duckdb".to_string()));
    assert!(m.finish_create("new.duckdb".to_string(), Err("no".to_string())).is_err());
    assert_eq!(m.get_path(), Some("old.duckdb".to_string()));
    let r = m.finish_create("new.duckdb".to_string(), Ok(())).unwrap();
    assert_eq!(r, DatabaseInfo { path: "new.duckdb".to_string(), tables: vec![] });
    assert_eq!(m.get_path(), Some("new.duckdb".to_string()));
}

fn raw(name: Option<&str>, not_null: Option<bool>, pk: Option<bool>) -> RawColumn {
    RawColumn {
        name: name.map(|s| s.to_string()),
        data_type: Some("INTEGER".to_string()),
        not_null,
        default_value: None,
        primary_key: pk,
    }
}

#[test]
fn schema_keeps_readable_rows() {
    let rows = vec![
        raw(Some("id"), Some(true), Some(true)),
        raw(None, Some(false), None),
        raw(Some("age"), Some(false), None),
        raw(Some("x"), None, Some(false)),
    ];
    let s = table_schema_from_rows("users".to_string(), &rows);
    assert_eq!(s.table_name, "users");
    assert_eq!(
        s.columns,
        vec![
            ColumnInfo {
                name: "id".to_string(),
                data_type: "INTEGER".to_string(),
                nullable: false,
                default_value: None,
                is_primary_key: true,
            },
            ColumnInfo {
                name: "age".to_string(),
                data_type: "INTEGER".to_string(),
                nullable: true,
                default_value: None,
                is_primary_key: false,
            },
        ]
    );
    assert_eq!(column_from_raw(&rows[1]), None);
}

#[test]
fn unreadable_counts_show_zero() {
    let names = vec!["a".to_string(), "b".to_string()];
    let infos = table_infos(&names, &vec![Some(7), None]);
    assert_eq!(
        infos,
        vec![
            TableInfo { name: "a".to_string(), row_count: 7 },
            TableInfo { name: "b".to_string(), row_count: 0 },
        ]
    );
}
