//! The settings the log service and chat bot read at start-up.

use vstd::prelude::*;

verus! {

/// Where the bot finds its keys, accounts, database and listening address.
#[derive(Debug)]
pub struct Config {
    pub github_key_path: String,
    pub matrix_user: String,
    pub matrix_password: String,
    pub matrix_json_store: String,
    pub database_path: String,
    pub address: String,
    pub port: u16,
}

} // verus!
