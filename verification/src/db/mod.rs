//! The policy store: which database it is kept in, and its rows.

pub mod models;

use crate::text::{has_prefix, str_starts_with};
use vstd::prelude::*;

verus! {

/// The kind of database behind a database URL.
#[derive(Debug, Clone, Copy, PartialEq, Eq, Structural)]
pub enum Backend {
    Sqlite,
    Postgres,
}

/// The database that a URL names: SQLite where it starts with `sqlite://`,
/// else PostgreSQL.
pub open spec fn backend_named(database_url: Seq<char>) -> Backend {
    if has_prefix(database_url, "sqlite://"@) {
        Backend::Sqlite
    } else {
        Backend::Postgres
    }
}

impl Backend {
    /// The database that `database_url` names.
    pub fn of(database_url: &str) -> (backend: Backend)
        ensures
            backend == backend_named(database_url@),
    {
        if str_starts_with(database_url, "sqlite://") {
            Backend::Sqlite
        } else {
            Backend::Postgres
        }
    }

    /// How many connections the pool of this database may hold: 5 for
    /// SQLite, 10 for PostgreSQL.
    pub fn max_connections(self) -> (n: u32)
        ensures
            n == match self {
                Backend::Sqlite => 5u32,
                Backend::Postgres => 10u32,
            },
    {
        match self {
            Backend::Sqlite => 5,
            Backend::Postgres => 10,
        }
    }
}

} // verus!
