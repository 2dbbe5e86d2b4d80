//! The store in a SQLite database: the statements that are run on it and what their rows stand for.
pub mod actor;
pub mod laws;
pub mod migrations;
pub mod plan;
pub mod rows;
pub mod schema;
pub mod statement;
pub mod statement_laws;
pub mod update_laws;
pub mod util;

use vstd::prelude::*;

verus! {

/// Where the database lies.
#[derive(Debug)]
pub struct SqliteConfig {
    pub path: String,
}

impl Default for SqliteConfig {
    fn default() -> (r: Self)
        ensures
            r.path@ == "filerequest.db"@,
    {
        SqliteConfig { path: "filerequest.db".to_owned() }
    }
}

} // verus!
