use vstd::prelude::*;

use crate::config::blog::BlogConfig;
use crate::error::ServerError;
use crate::model::sqlite::{db_outcome, open_connection, outcome_only, OpenStep};

verus! {

/// Everything a request handler needs: the configuration and the database.
#[derive(Clone, Debug)]
pub struct AppState {
    pub config_state: ConfigState,
    pub env_state: EnvState,
}

/// The blogs' configuration and where the static assets lie.
#[derive(Clone, Debug)]
pub struct ConfigState {
    pub blog_config: BlogConfig,
    pub assets_path: String,
}

impl ConfigState {
    /// The configuration state made of the blogs' configuration, as it was
    /// read from its file, and the assets' folder.
    pub fn new(blog_config: BlogConfig, assets_path: &str) -> (r: ConfigState)
        ensures
            r.blog_config == blog_config,
            r.assets_path@ == assets_path@,
    {
        ConfigState { blog_config, assets_path: String::from_str(assets_path) }
    }
}

/// Where the database lies, and the environment the server runs in.
#[derive(Clone, Debug)]
pub struct EnvState {
    pub sqlite_path: String,
    pub rust_env: String,
}

impl EnvState {
    /// The state of a server whose database lies at `sqlite_path`: the
    /// database at `sqlite_path` is opened once (the open is given back as a
    /// ghost); a failed open is a `DBError` with the open's error.
    pub fn new(sqlite_path: &str, rust_env: &str) -> (r: (Result<EnvState, ServerError>, Ghost<OpenStep>))
        ensures
            r.1@.path == sqlite_path@,
            match r.1@.answer {
                Ok(_) => r.0 matches Ok(s) && s.sqlite_path@ == sqlite_path@ && s.rust_env@ == rust_env@,
                Err(e) => r.0 matches Err(ServerError::DBError(e2)) && e2 == e,
            },
    {
        let (opened, path) = open_connection(sqlite_path);
        let step = Ghost(OpenStep { path: path@, answer: outcome_only(opened) });
        match opened {
            Ok(_) => {},
            Err(e) => return (Err(ServerError::DBError(e)), step),
        }
        (Ok(EnvState { sqlite_path: String::from_str(sqlite_path), rust_env: String::from_str(rust_env) }), step)
    }

    /// A new connection to the database at `sqlite_path`: that path, and no
    /// other, is opened (the open is given back as a ghost); a failed open is
    /// a `DBError` with the open's own error.
    pub fn get_connection(&self) -> (r: (Result<rusqlite::Connection, ServerError>, Ghost<OpenStep>))
        ensures
            r.1@.path == self.sqlite_path@,
            match r.1@.answer {
                Ok(_) => r.0 is Ok,
                Err(e) => r.0 matches Err(ServerError::DBError(e2)) && e2 == e,
            },
    {
        let (opened, path) = open_connection(self.sqlite_path.as_str());
        let step = Ghost(OpenStep { path: path@, answer: outcome_only(opened) });
        (db_outcome(opened), step)
    }
}

} // verus!
