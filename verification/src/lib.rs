//! Core of a desktop utility that asks a remote text-completion endpoint
//! for one structured "idea" document. The library renders the prompt,
//! serializes the request body, interprets the HTTP outcome, recovers the
//! JSON payload from the model's free-text reply, decodes it into the fixed
//! idea schema, and manages the lifecycle of the stored API key. The HTTP
//! exchange itself is left to the caller, which hands back a plain outcome.

use vstd::prelude::*;

pub mod errors;
pub mod extract;
pub mod idea;
pub mod json;
pub mod prompt;
pub mod response;
pub mod store;
pub mod text;
pub mod wire;

verus! {

/// Address of the remote completion endpoint.
pub const API_URL: &'static str = "https://api.anthropic.com/v1/messages";

/// Value of the fixed protocol-version header sent with every request.
pub const API_VERSION: &'static str = "2023-06-01";

/// Service identifier under which the credential is stored.
pub const KEYRING_SERVICE: &'static str = "ai-idea-prompt-generator";

/// Account identifier under which the credential is stored.
pub const KEYRING_ACCOUNT: &'static str = "anthropic_api_key";

} // verus!
