//! Connection profiles, and the database engines that they select.

use crate::wire::optional_text;
use vstd::prelude::*;
use vstd::string::*;

verus! {

/// The stored description of a database to connect to. It is taken as it
/// comes: whether its engine is one that can be reached is decided when an
/// operation starts, not here.
#[derive(Clone, Debug)]
pub struct DatabaseConnection {
    pub id: i32,
    pub nickname: String,
    pub database_type: String,
    pub database_uri: String,
    pub host: String,
    pub port: Option<String>,
    pub user: String,
    pub password: String,
    pub database_name: String,
    pub schema: String,
}

/// A `DatabaseConnection` as contracts see it.
pub struct ProfileView {
    pub id: i32,
    pub nickname: Seq<char>,
    pub database_type: Seq<char>,
    pub database_uri: Seq<char>,
    pub host: Seq<char>,
    pub port: Option<Seq<char>>,
    pub user: Seq<char>,
    pub password: Seq<char>,
    pub database_name: Seq<char>,
    pub schema: Seq<char>,
}

impl View for DatabaseConnection {
    type V = ProfileView;

    open spec fn view(&self) -> ProfileView {
        ProfileView {
            id: self.id,
            nickname: self.nickname@,
            database_type: self.database_type@,
            database_uri: self.database_uri@,
            host: self.host@,
            port: optional_text(self.port),
            user: self.user@,
            password: self.password@,
            database_name: self.database_name@,
            schema: self.schema@,
        }
    }
}

/// The database engines that a profile can name.
#[derive(Clone, Copy, Debug, PartialEq, Eq)]
pub enum BackendKind {
    /// PostgreSQL, the one engine that operations reach.
    Postgres,
    /// MySQL: known, not reachable yet.
    Mysql,
    /// SQLite: known, not reachable yet.
    Sqlite,
    /// Any other name.
    Unsupported,
}

/// The engine that a profile's `database_type` names. The name is taken
/// letter for letter.
pub open spec fn backend_kind_of(database_type: Seq<char>) -> BackendKind {
    if database_type == "postgres"@ {
        BackendKind::Postgres
    } else if database_type == "mysql"@ {
        BackendKind::Mysql
    } else if database_type == "sqlite"@ {
        BackendKind::Sqlite
    } else {
        BackendKind::Unsupported
    }
}

/// The three names that are known are told apart: each names its own engine.
pub proof fn lemma_known_engines_are_told_apart()
    ensures
        backend_kind_of("postgres"@) == BackendKind::Postgres,
        backend_kind_of("mysql"@) == BackendKind::Mysql,
        backend_kind_of("sqlite"@) == BackendKind::Sqlite,
{
    reveal_strlit("postgres");
    reveal_strlit("mysql");
    reveal_strlit("sqlite");
    assert("postgres"@.len() == 8 && "mysql"@.len() == 5 && "sqlite"@.len() == 6);
}

impl DatabaseConnection {
    /// The engine that this profile names.
    pub fn backend_kind(&self) -> (kind: BackendKind)
        ensures
            kind == backend_kind_of(self.database_type@),
    {
        if self.database_type == String::from_str("postgres") {
            BackendKind::Postgres
        } else if self.database_type == String::from_str("mysql") {
            BackendKind::Mysql
        } else if self.database_type == String::from_str("sqlite") {
            BackendKind::Sqlite
        } else {
            BackendKind::Unsupported
        }
    }
}

} // verus!
