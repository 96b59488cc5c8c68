//! What the task manager needs to reach its store.

use vstd::prelude::*;
use vstd::string::StringExecFns;

verus! {

/// The largest number of connections that the pool may hold.
pub const MAX_CONNECTIONS: u32 = 5;

/// The name of the setting that holds the connection string.
pub open spec fn database_url_key_text() -> Seq<char> {
    "DATABASE_URL"@
}

/// What is said when the connection string is not set.
pub open spec fn missing_database_url_text() -> Seq<char> {
    "DATABASE_URL must be set in .env file"@
}

/// What is printed once the store is reached.
pub open spec fn connected_text() -> Seq<char> {
    "Connected to MySQL database!\n"@
}

/// The name of the setting that holds the connection string.
pub fn database_url_key() -> (key: &'static str)
    ensures
        key@ == database_url_key_text(),
{
    "DATABASE_URL"
}

/// The connection string, given what the setting holds: the value where it
/// is set, and otherwise the message to stop with.
pub fn require_database_url(setting: Option<String>) -> (url: Result<String, String>)
    ensures
        match setting {
            Some(value) => url matches Ok(found) && found@ == value@,
            None => url matches Err(message) && message@ == missing_database_url_text(),
        },
{
    match setting {
        Some(value) => Ok(value),
        None => Err(String::from_str("DATABASE_URL must be set in .env file")),
    }
}

/// What is printed once the store is reached.
pub fn connected() -> (text: &'static str)
    ensures
        text@ == connected_text(),
{
    "Connected to MySQL database!\n"
}

} // verus!
