//! Database connection settings.
use vstd::prelude::*;
use vstd::string::*;
use crate::text::{joined_path, join_path};

verus! {

/// Settings of the SQLite connection.
pub struct SqliteConnection {
    pub database: String,
    pub foreign_key_constraints: bool,
}

/// The connections that can be configured.
pub struct Connections {
    pub sqlite: SqliteConnection,
}

/// Which connection is used, and the settings of each.
pub struct DatabaseConfig {
    pub default: String,
    pub connections: Connections,
}

/// The URL of an SQLite database file: `sqlite://` before the path, so that an
/// absolute path gets three slashes in all and a relative one two.
pub open spec fn sqlite_url(database: Seq<char>) -> Seq<char> {
    "sqlite://"@ + database
}

/// The database file used when `DB_DATABASE` is not set.
pub open spec fn default_database_path(current_dir: Seq<char>) -> Seq<char> {
    joined_path(joined_path(current_dir, "database"@), "database.sqlite"@)
}

impl DatabaseConfig {
    /// The configuration from the values of `DB_CONNECTION` and `DB_DATABASE`, where
    /// set, and the working directory: the connection defaults to `sqlite`, the
    /// database to `database/database.sqlite` under the working directory.
    pub fn from_env(connection: Option<String>, database: Option<String>, current_dir: &str) -> (c: Self)
        ensures
            c.default@ == (match connection { Some(s) => s@, None => "sqlite"@ }),
            c.connections.sqlite.database@ == (match database {
                Some(s) => s@,
                None => default_database_path(current_dir@),
            }),
            c.connections.sqlite.foreign_key_constraints,
    {
        let default = match connection {
            Some(s) => s,
            None => String::from_str("sqlite"),
        };
        let db = match database {
            Some(s) => s,
            None => {
                let dir = join_path(current_dir, "database");
                join_path(dir.as_str(), "database.sqlite")
            },
        };
        DatabaseConfig {
            default,
            connections: Connections { sqlite: SqliteConnection { database: db, foreign_key_constraints: true } },
        }
    }

    /// The URL to connect to. Only the `sqlite` connection is supported.
    pub fn connection_url(&self) -> (url: String)
        requires
            self.default@ == "sqlite"@,
        ensures
            url@ == sqlite_url(self.connections.sqlite.database@),
    {
        String::from_str("sqlite://").concat(self.connections.sqlite.database.as_str())
    }
}

} // verus!
