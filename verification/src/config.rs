//! The session that every operation against the platform needs.

use vstd::prelude::*;
use vstd::string::*;
use crate::error::{ApiError, NO_SESSION};

verus! {

/// The credentials of a signed-in user.
#[derive(Debug, Clone, PartialEq, Eq)]
pub struct AppConfig {
    /// Identifier of the user who owns the folders.
    pub up_mid: String,
    /// Token that the platform wants with every call that changes something.
    pub csrf_token: String,
    /// The session cookie.
    pub cookie: String,
}

impl Default for AppConfig {
    fn default() -> (config: AppConfig)
        ensures
            config.up_mid@ == Seq::<char>::empty(),
            config.csrf_token@ == Seq::<char>::empty(),
            config.cookie@ == Seq::<char>::empty(),
    {
        AppConfig { up_mid: String::new(), csrf_token: String::new(), cookie: String::new() }
    }
}

/// Insists on a session before any call is made: without one the operation
/// fails at once as a breach of a local rule.
pub fn require_session(config: Option<AppConfig>) -> (r: Result<AppConfig, ApiError>)
    ensures
        match config {
            Some(session) => r == Ok::<AppConfig, ApiError>(session),
            None => r matches Err(ApiError::Validation(text)) && text@ == NO_SESSION@,
        },
{
    match config {
        Some(session) => Ok(session),
        None => Err(ApiError::Validation(String::from_str(NO_SESSION))),
    }
}

} // verus!
