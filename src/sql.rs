//! Statements sent to the server to create and reset a test database.

use vstd::prelude::*;

verus! {

/// Terminates every other backend connected to the database named by `$1`.
pub const TERMINATE_BACKENDS_SQL: &'static str = "SELECT pid, pg_terminate_backend(pid) FROM pg_stat_activity WHERE datname = $1 AND pid <> pg_backend_pid()";

/// Drops every object of the default schema.
pub const DROP_SCHEMA_SQL: &'static str = "DROP SCHEMA PUBLIC CASCADE";

/// Brings back an empty default schema.
pub const CREATE_SCHEMA_SQL: &'static str = "CREATE SCHEMA PUBLIC";

/// The statement that creates the database `name`.
pub open spec fn create_database_of(name: Seq<char>) -> Seq<char> {
    seq!['C', 'R', 'E', 'A', 'T', 'E', ' ', 'D', 'A', 'T', 'A', 'B', 'A', 'S', 'E', ' '] + name
        + seq![';']
}

/// Builds the statement that creates the database `name`.
pub fn create_database_sql(name: &str) -> (r: String)
    ensures
        r@ == create_database_of(name@),
{
    let mut s = String::from_str("CREATE DATABASE ");
    proof {
        reveal_strlit("CREATE DATABASE ");
        reveal_strlit(";");
    }
    s.append(name);
    s.append(";");
    assert(s@ =~= create_database_of(name@));
    s
}

} // verus!
