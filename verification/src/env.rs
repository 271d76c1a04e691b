//! Process configuration: the values recognized at start-up, loaded
//! once from the environment and immutable afterwards. Reading the
//! environment itself happens outside the crate; this module decides
//! whether what was read is complete.

use vstd::prelude::*;

verus! {

/// The configuration of the remote data service: application
/// identifier, base URL and public API key.
#[derive(Debug, PartialEq, Eq)]
pub struct EnvConfig {
    pub supabase_project_id: String,
    pub supabase_url: String,
    pub supabase_anon_key: String,
}

/// The connection configuration of the server-side database pool.
#[derive(Debug, PartialEq, Eq)]
pub struct DatabaseConfig {
    pub database_url: String,
}

/// Why configuration loading failed.
#[derive(Debug, PartialEq, Eq)]
pub enum EnvError {
    /// The named environment variable was not set.
    MissingVariable(String),
}

/// The first of the three service variables that is missing.
pub open spec fn spec_first_missing(project_id_missing: bool, url_missing: bool) -> Seq<char> {
    if project_id_missing {
        "SUPABASE_PROJECT_ID"@
    } else if url_missing {
        "SUPABASE_URL"@
    } else {
        "SUPABASE_ANON_KEY"@
    }
}

/// Assemble the service configuration from the raw environment
/// values, which the caller reads and hands over. All three
/// variables are required; the error names the first missing one.
pub fn get_env_config(project_id: Option<String>, url: Option<String>, anon_key: Option<String>)
    -> (r: Result<EnvConfig, EnvError>)
    ensures
        r is Ok <==> project_id is Some && url is Some && anon_key is Some,
        r matches Ok(c) ==> {
            &&& c.supabase_project_id == project_id->0
            &&& c.supabase_url == url->0
            &&& c.supabase_anon_key == anon_key->0
        },
        r matches Err(e) ==> (e matches EnvError::MissingVariable(n) && n@ == spec_first_missing(
            project_id is None,
            url is None,
        )),
{
    match (project_id, url, anon_key) {
        (Some(p), Some(u), Some(k)) => Ok(
            EnvConfig { supabase_project_id: p, supabase_url: u, supabase_anon_key: k },
        ),
        (None, _, _) => Err(EnvError::MissingVariable(String::from_str("SUPABASE_PROJECT_ID"))),
        (Some(_), None, _) => Err(EnvError::MissingVariable(String::from_str("SUPABASE_URL"))),
        (Some(_), Some(_), None) => Err(
            EnvError::MissingVariable(String::from_str("SUPABASE_ANON_KEY")),
        ),
    }
}

/// Assemble the database configuration from the raw environment
/// value, which the caller reads and hands over.
pub fn load_config(database_url: Option<String>) -> (r: Result<DatabaseConfig, EnvError>)
    ensures
        r is Ok <==> database_url is Some,
        r matches Ok(c) ==> c.database_url == database_url->0,
        r matches Err(e) ==> (e matches EnvError::MissingVariable(n) && n@ == "DATABASE_URL"@),
{
    match database_url {
        Some(u) => Ok(DatabaseConfig { database_url: u }),
        None => Err(EnvError::MissingVariable(String::from_str("DATABASE_URL"))),
    }
}

} // verus!
