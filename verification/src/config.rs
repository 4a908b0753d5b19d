use vstd::prelude::*;

use crate::error::ServerError;

pub mod blog;
pub mod environment;
pub mod tracing;

verus! {

/// What the server reads from its environment.
pub struct Environment {
    pub rust_log: String,
    pub server_port: String,
}

/// The value of a variable of the environment, or
/// `InternalServer("env not found")` when it is not set (`value` is `None`).
pub fn get_env(value: Option<String>) -> (r: Result<String, ServerError>)
    ensures
        match value {
            Some(v) => r matches Ok(s) && s@ == v@,
            None => r matches Err(ServerError::InternalServer(m)) && m@ == "env not found"@,
        },
{
    match value {
        Some(v) => Ok(v),
        None => Err(ServerError::InternalServer(String::from_str("env not found"))),
    }
}

impl Environment {
    /// The environment made of the variables `SERVER_PORT` and `RUST_LOG`, as
    /// they were read (`None` when not set). Fails with
    /// `InternalServer("env not found")` when either is missing.
    pub fn load_from_env(server_port: Option<String>, rust_log: Option<String>) -> (r: Result<Environment, ServerError>)
        ensures
            match (server_port, rust_log) {
                (Some(p), Some(l)) => r matches Ok(e) && e.server_port@ == p@ && e.rust_log@ == l@,
                _ => r matches Err(ServerError::InternalServer(m)) && m@ == "env not found"@,
            },
    {
        Ok(Environment { server_port: get_env(server_port)?, rust_log: get_env(rust_log)? })
    }
}

} // verus!
