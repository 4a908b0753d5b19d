use vstd::prelude::*;

use crate::error::ServerError;

verus! {

/// What the server reads from its environment, with the database project.
pub struct Environment {
    pub rust_log: String,
    pub server_port: String,
    pub server_host: String,
    pub firestore_project_id: String,
}

/// The text of the error for a variable `name` that is not set.
pub open spec fn missing_env_text(name: Seq<char>) -> Seq<char> {
    "Env: "@ + name + " not found"@
}

/// The value of the variable `name` of the environment, or
/// `InternalServer("Env: {name} not found")` when it is not set (`value` is `None`).
pub fn get_env(name: &str, value: Option<String>) -> (r: Result<String, ServerError>)
    ensures
        match value {
            Some(v) => r matches Ok(s) && s@ == v@,
            None => r matches Err(ServerError::InternalServer(m)) && m@ == missing_env_text(name@),
        },
{
    match value {
        Some(v) => Ok(v),
        None => Err(ServerError::InternalServer(String::from_str("Env: ").concat(name).concat(" not found"))),
    }
}

/// The name of the first variable, in the order `SERVER_PORT`, `RUST_LOG`,
/// `SERVER_HOST`, `FIRESTORE_PROJECT_ID`, that is not set.
pub open spec fn first_missing(
    port: Option<String>,
    log: Option<String>,
    host: Option<String>,
    project: Option<String>,
) -> Option<Seq<char>> {
    if port is None {
        Some("SERVER_PORT"@)
    } else if log is None {
        Some("RUST_LOG"@)
    } else if host is None {
        Some("SERVER_HOST"@)
    } else if project is None {
        Some("FIRESTORE_PROJECT_ID"@)
    } else {
        None
    }
}

impl Environment {
    /// The environment made of the variables `SERVER_PORT`, `RUST_LOG`,
    /// `SERVER_HOST` and `FIRESTORE_PROJECT_ID`, as they were read (`None`
    /// when not set). Fails on the first of them that is missing, naming it.
    pub fn load_from_env(
        server_port: Option<String>,
        rust_log: Option<String>,
        server_host: Option<String>,
        firestore_project_id: Option<String>,
    ) -> (r: Result<Environment, ServerError>)
        ensures
            match first_missing(server_port, rust_log, server_host, firestore_project_id) {
                Some(name) => r matches Err(ServerError::InternalServer(m)) && m@ == missing_env_text(name),
                None => r matches Ok(e)
                    && e.server_port@ == server_port->Some_0@
                    && e.rust_log@ == rust_log->Some_0@
                    && e.server_host@ == server_host->Some_0@
                    && e.firestore_project_id@ == firestore_project_id->Some_0@,
            },
    {
        Ok(Environment {
            server_port: get_env("SERVER_PORT", server_port)?,
            rust_log: get_env("RUST_LOG", rust_log)?,
            server_host: get_env("SERVER_HOST", server_host)?,
            firestore_project_id: get_env("FIRESTORE_PROJECT_ID", firestore_project_id)?,
        })
    }
}

} // verus!
