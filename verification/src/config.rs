//! Configuration and the provider selection it drives.
//!
//! Reading the environment is the caller's plumbing; which provider a
//! configuration selects is a pure decision made here.

use vstd::prelude::*;

verus! {

/// The configuration the surrounding program resolves at startup.
pub struct Config {
    /// Base of the remote provider's endpoint.
    pub api_base_url: String,
    /// Remote credential; its presence alone selects the remote
    /// provider.
    pub api_key: Option<String>,
    /// Remote model identifier.
    pub api_model: String,
    /// Path of the pre-loaded local model resource.
    pub whisper_model_path: String,
}

/// The two transcription capabilities.
#[derive(Clone, Copy, Debug, PartialEq, Eq, Structural)]
pub enum Provider {
    /// Remote transcription over the configured endpoint.
    Remote,
    /// Local model inference.
    Local,
}

/// Select the provider: remote exactly when a credential is
/// configured, local otherwise.
pub fn select_provider(config: &Config) -> (p: Provider)
    ensures
        p is Remote <==> config.api_key is Some,
        p is Local <==> config.api_key is None,
{
    match &config.api_key {
        Some(_) => Provider::Remote,
        None => Provider::Local,
    }
}

} // verus!
