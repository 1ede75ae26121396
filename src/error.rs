//! Errors reported by the supervisor and the servers.

use vstd::prelude::*;

verus! {

/// Why an operation on a server slot did not take place.
#[derive(Debug, Clone, PartialEq, Eq)]
pub enum ServerError {
    AlreadyRunning,
    NotRunning,
    ConfigError(String),
    IoError(String),
    Other(String),
}

/// The text that describes an error.
pub open spec fn error_text(e: ServerError) -> Seq<char> {
    match e {
        ServerError::AlreadyRunning => "Server already running"@,
        ServerError::NotRunning => "Server not running"@,
        ServerError::ConfigError(s) => "Configuration error: "@ + s@,
        ServerError::IoError(s) => "IO error: "@ + s@,
        ServerError::Other(s) => "Other error: "@ + s@,
    }
}

impl ServerError {
    /// The text that describes this error.
    pub fn message(&self) -> (r: String)
        ensures
            r@ == error_text(*self),
    {
        match self {
            ServerError::AlreadyRunning => String::from_str("Server already running"),
            ServerError::NotRunning => String::from_str("Server not running"),
            ServerError::ConfigError(s) => String::from_str("Configuration error: ").concat(s.as_str()),
            ServerError::IoError(s) => String::from_str("IO error: ").concat(s.as_str()),
            ServerError::Other(s) => String::from_str("Other error: ").concat(s.as_str()),
        }
    }
}

} // verus!
