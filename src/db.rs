use vstd::prelude::*;
use crate::models::DatabaseInfo;

verus! {

/// Holds the path of the currently open database: at most one at a time, set and cleared by
/// explicit commands. Sharing it between requests is the caller's concern (behind a lock).
#[derive(Debug, Clone, PartialEq, Eq)]
pub struct DatabaseManager {
    path: Option<String>,
}

impl View for DatabaseManager {
    type V = Option<Seq<char>>;

    closed spec fn view(&self) -> Option<Seq<char>> {
        match self.path {
            Some(p) => Some(p@),
            None => None,
        }
    }
}

impl DatabaseManager {
    /// A manager with no database open.
    pub fn new() -> (r: Self)
        ensures
            r@ is None,
    {
        DatabaseManager { path: None }
    }

    /// Makes `path` the active path (or clears it); the last write wins.
    pub fn set_path(&mut self, path: Option<String>)
        ensures
            final(self)@ == (match path {
                Some(p) => Some(p@),
                None => None::<Seq<char>>,
            }),
    {
        self.path = path;
    }

    /// The active path, if any.
    pub fn get_path(&self) -> (r: Option<String>)
        ensures
            (match r {
                Some(p) => Some(p@),
                None => None::<Seq<char>>,
            }) == self@,
    {
        self.path.clone()
    }

    /// The active path, or the message that no database is selected.
    pub fn selected_path(&self) -> (r: Result<String, String>)
        ensures
            match r {
                Ok(p) => self@ == Some(p@),
                Err(e) => self@ is None && e@ == "No database selected"@,
            },
    {
        match &self.path {
            Some(p) => Ok(p.clone()),
            None => {
                proof {
                    reveal_strlit("No database selected");
                }
                Err("No database selected".to_owned())
            },
        }
    }

    /// Completes opening the database at `path`, given the engine's answer (its table names,
    /// or a failure): on success the path becomes the active one, on failure nothing changes.
    pub fn finish_open(&mut self, path: String, tables: Result<Vec<String>, String>) -> (r: Result<DatabaseInfo, String>)
        ensures
            match tables {
                Ok(t) => final(self)@ == Some(path@) && r == Ok::<DatabaseInfo, String>(
                    DatabaseInfo { path, tables: t },
                ),
                Err(e) => final(self)@ == old(self)@ && r == Err::<DatabaseInfo, String>(e),
            },
    {
        match tables {
            Ok(t) => {
                self.path = Some(path.clone());
                Ok(DatabaseInfo { path, tables: t })
            },
            Err(e) => Err(e),
        }
    }

    /// Completes creating the database at `path`, given whether the engine could create it:
    /// on success the path becomes the active one and the new database has no tables, on
    /// failure nothing changes.
    pub fn finish_create(&mut self, path: String, created: Result<(), String>) -> (r: Result<DatabaseInfo, String>)
        ensures
            match created {
                Ok(_) => final(self)@ == Some(path@) && r is Ok && r->Ok_0.path == path
                    && r->Ok_0.tables@.len() == 0,
                Err(e) => final(self)@ == old(self)@ && r == Err::<DatabaseInfo, String>(e),
            },
    {
        match created {
            Ok(_) => {
                self.path = Some(path.clone());
                Ok(DatabaseInfo { path, tables: Vec::new() })
            },
            Err(e) => Err(e),
        }
    }
}

impl Default for DatabaseManager {
    fn default() -> (r: Self)
        ensures
            r@ is None,
    {
        Self::new()
    }
}

} // verus!
