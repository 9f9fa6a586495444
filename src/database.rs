//! Connection parameters and the handle of one per-test database.

use crate::naming::{is_db_name, random_db_name};
use vstd::prelude::*;

verus! {

/// Where and as whom to connect.
#[derive(Clone, Debug)]
pub struct ConnectionParams {
    pub user: String,
    pub password: String,
    pub host: String,
    pub port: u16,
    /// The database to connect to; the server's default one when absent.
    pub dbname: Option<String>,
}

/// The default port of a PostgreSQL server.
pub const DEFAULT_PORT: u16 = 5432;

impl ConnectionParams {
    /// The administrative connection of a local development server.
    pub fn local_admin() -> (r: ConnectionParams)
        ensures
            r.user@ == "postgres"@,
            r.password@ == "password"@,
            r.host@ == "localhost"@,
            r.port == DEFAULT_PORT,
            r.dbname is None,
    {
        ConnectionParams {
            user: String::from_str("postgres"),
            password: String::from_str("password"),
            host: String::from_str("localhost"),
            port: DEFAULT_PORT,
            dbname: None,
        }
    }

    /// The same server and credentials, scoped to the database `name`.
    pub fn for_database(&self, name: &str) -> (r: ConnectionParams)
        ensures
            r.user@ == self.user@,
            r.password@ == self.password@,
            r.host@ == self.host@,
            r.port == self.port,
            r.dbname matches Some(d) && d@ == name@,
    {
        ConnectionParams {
            user: self.user.clone(),
            password: self.password.clone(),
            host: self.host.clone(),
            port: self.port,
            dbname: Some(String::from_str(name)),
        }
    }
}

/// One ephemeral database, owned by a single test invocation.
#[derive(Clone, Debug)]
pub struct TestDatabase {
    /// The generated name of the database.
    pub name: String,
    /// The administrative connection used to create and reset it.
    pub admin: ConnectionParams,
    /// The connection scoped to the database itself.
    pub params: ConnectionParams,
    /// When it was created, in seconds since the Unix epoch.
    pub created_at: u64,
}

impl TestDatabase {
    /// Whether `params` is `admin` scoped to the database.
    pub open spec fn wf(&self) -> bool {
        &&& is_db_name(self.name@)
        &&& self.params.user@ == self.admin.user@
        &&& self.params.password@ == self.admin.password@
        &&& self.params.host@ == self.admin.host@
        &&& self.params.port == self.admin.port
        &&& self.params.dbname matches Some(d) && d@ == self.name@
    }

    /// A handle for a database with a fresh random name on the server that
    /// `admin` reaches.
    pub fn provision(admin: &ConnectionParams, created_at: u64) -> (r: TestDatabase)
        ensures
            r.wf(),
            r.admin.user@ == admin.user@,
            r.admin.password@ == admin.password@,
            r.admin.host@ == admin.host@,
            r.admin.port == admin.port,
            r.admin.dbname == admin.dbname,
            r.created_at == created_at,
    {
        let name = random_db_name();
        let params = admin.for_database(name.as_str());
        let admin_copy = ConnectionParams {
            user: admin.user.clone(),
            password: admin.password.clone(),
            host: admin.host.clone(),
            port: admin.port,
            dbname: match &admin.dbname {
                Some(d) => Some(d.clone()),
                None => None,
            },
        };
        TestDatabase { name, admin: admin_copy, params, created_at }
    }
}

} // verus!
