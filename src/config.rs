//! Where a connection to the store goes.
use vstd::prelude::*;

verus! {

/// Why no connection could be attempted.
#[derive(Debug, PartialEq, Eq, Structural, Clone, Copy)]
pub enum ConfigError {
    /// No connection string was configured.
    MissingDatabaseUrl,
}

/// The connection string to connect with, from the configured value. With
/// none configured this fails, so no connection is ever attempted without one.
pub fn database_url(configured: Option<String>) -> (r: Result<String, ConfigError>)
    ensures
        configured matches Some(url) ==> r matches Ok(u) && u@ == url@,
        configured is None ==> r == Err::<String, ConfigError>(ConfigError::MissingDatabaseUrl),
{
    match configured {
        Some(url) => Ok(url),
        None => Err(ConfigError::MissingDatabaseUrl),
    }
}

} // verus!
