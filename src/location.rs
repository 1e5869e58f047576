//! Where the database file lives.

use vstd::prelude::*;
use crate::store::StoreError;

verus! {

/// The environment variable that names the database file explicitly.
pub const DB_FILE_VAR: &'static str = "STICKY_VAR_DB";

/// The directory, under the platform's state or data directory, that holds the database.
pub const STICKYVAR_DIR: &'static str = "stickyvar";

/// The database file's name inside that directory.
pub const DB_FILE_NAME: &'static str = "sticky-var.db";

/// Where the database is.
#[derive(Clone, Debug, PartialEq, Eq)]
pub enum DbLocation {
    /// A file path given by the override variable.
    Explicit(String),
    /// `DB_FILE_NAME` inside `STICKYVAR_DIR` inside this platform directory,
    /// which is to be created where absent.
    Platform(String),
}

/// The location chosen from the override, the platform state directory and the
/// local data directory, in that order of preference.
pub open spec fn resolved(
    override_path: Option<String>,
    state_dir: Option<String>,
    data_local_dir: Option<String>,
) -> Result<DbLocation, StoreError> {
    match (override_path, state_dir, data_local_dir) {
        (Some(p), _, _) => Ok(DbLocation::Explicit(p)),
        (None, Some(d), _) => Ok(DbLocation::Platform(d)),
        (None, None, Some(d)) => Ok(DbLocation::Platform(d)),
        (None, None, None) => Err(StoreError::Config),
    }
}

/// Resolves the database location: the override first, then the platform
/// state directory, then the local data directory; a configuration error where
/// none is known.
pub fn resolve_db_location(
    override_path: Option<String>,
    state_dir: Option<String>,
    data_local_dir: Option<String>,
) -> (r: Result<DbLocation, StoreError>)
    ensures
        r == resolved(override_path, state_dir, data_local_dir),
{
    match override_path {
        Some(p) => Ok(DbLocation::Explicit(p)),
        None => match state_dir {
            Some(d) => Ok(DbLocation::Platform(d)),
            None => match data_local_dir {
                Some(d) => Ok(DbLocation::Platform(d)),
                None => Err(StoreError::Config),
            },
        },
    }
}

} // verus!
