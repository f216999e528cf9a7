//! Process-wide settings, read once at start-up.
use vstd::prelude::*;

verus! {

/// The data store's connection string and the size of its connection pool.
#[derive(Debug, Clone)]
pub struct Config {
    pub database_url: String,
    pub max_db_connection: u32,
}

} // verus!
