pub mod set;

use vstd::prelude::*;

verus! {

/// The connection settings read from the local configuration file.
#[derive(Debug, Clone)]
pub struct Config {
    pub db: Db,
}

/// The credentials for the backing database.
#[derive(Debug, Clone)]
pub struct Db {
    pub user: String,
    pub password: String,
}

} // verus!
