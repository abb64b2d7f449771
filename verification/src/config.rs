//! The credentials that a command runs with.

use crate::command::CommandError;
use vstd::prelude::*;

verus! {

/// The account's identity and its two secrets, as the configuration file
/// holds them. They are handed to the provider as they are.
#[derive(Debug, PartialEq, Eq)]
pub struct ClientConfig {
    pub email: String,
    pub api_token: String,
    pub api_key: String,
}

impl Default for ClientConfig {
    fn default() -> (config: Self)
        ensures
            config.email@.len() == 0,
            config.api_token@.len() == 0,
            config.api_key@.len() == 0,
    {
        ClientConfig { email: String::new(), api_token: String::new(), api_key: String::new() }
    }
}

/// The stored credentials, or the failure of a command that finds none.
pub fn require_config(stored: Option<ClientConfig>) -> (r: Result<ClientConfig, CommandError>)
    ensures
        match stored {
            Some(config) => r == Ok::<ClientConfig, CommandError>(config),
            None => r == Err::<ClientConfig, CommandError>(CommandError::CredentialsMissing),
        },
{
    match stored {
        Some(config) => Ok(config),
        None => Err(CommandError::CredentialsMissing),
    }
}

} // verus!
