//! Isolation harness for tests that run against a PostgreSQL server.
//!
//! Every test gets a freshly created database with a random name, has the
//! schema migration and its fixtures applied in order, runs its body, and is
//! then torn down (other connections terminated, the public schema reset)
//! whatever happened before. The decisions of that lifecycle, the naming of
//! the databases and the text handed to the server are verified here; the
//! driver that talks to the server lives outside the library.

pub mod naming;
pub mod fixtures;
pub mod sql;
pub mod session;
pub mod database;
