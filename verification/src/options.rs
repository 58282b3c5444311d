//! Configuration for the client, with builder-style setters.
use vstd::prelude::*;
use vstd::string::*;

verus! {

/// The timeout applied to each attempt when none is configured.
pub const DEFAULT_TIMEOUT_SECS: u64 = 15;

/// The retry ceiling when none is configured.
pub const DEFAULT_MAX_RETRIES: u32 = 3;

/// SDK configuration options.
#[derive(Debug)]
pub struct ClientOptions {
    /// Base URL for the API (required).
    pub base_url: String,
    /// API key for authentication (optional).
    pub api_key: Option<String>,
    /// Bearer token for authentication (optional; wins over the API key).
    pub bearer_token: Option<String>,
    /// Request timeout in seconds (default: 15).
    pub timeout_secs: Option<u64>,
    /// Maximum number of retry attempts (default: 3).
    pub max_retries: Option<u32>,
    /// Custom user agent (optional).
    pub user_agent: Option<String>,
    /// Additional custom headers (optional), applied last.
    pub custom_headers: Option<Vec<(String, String)>>,
    /// Enable debug logging (default: false).
    pub debug: bool,
}

impl ClientOptions {
    /// Options for the given base URL, everything else unset.
    pub fn new(base_url: &str) -> (r: Self)
        ensures
            r.base_url@ == base_url@,
            r.api_key is None,
            r.bearer_token is None,
            r.timeout_secs is None,
            r.max_retries is None,
            r.user_agent is None,
            r.custom_headers is None,
            !r.debug,
    {
        Self {
            base_url: String::from_str(base_url),
            api_key: None,
            bearer_token: None,
            timeout_secs: None,
            max_retries: None,
            user_agent: None,
            custom_headers: None,
            debug: false,
        }
    }

    /// Sets the API key.
    pub fn with_api_key(self, api_key: &str) -> (r: Self)
        ensures
            r.api_key matches Some(k) && k@ == api_key@,
            r == (Self { api_key: r.api_key, ..self }),
    {
        Self { api_key: Some(String::from_str(api_key)), ..self }
    }

    /// Sets the bearer token.
    pub fn with_bearer_token(self, token: &str) -> (r: Self)
        ensures
            r.bearer_token matches Some(t) && t@ == token@,
            r == (Self { bearer_token: r.bearer_token, ..self }),
    {
        Self { bearer_token: Some(String::from_str(token)), ..self }
    }

    /// Sets the per-attempt timeout in seconds.
    pub fn with_timeout(self, secs: u64) -> (r: Self)
        ensures
            r == (Self { timeout_secs: Some(secs), ..self }),
    {
        Self { timeout_secs: Some(secs), ..self }
    }

    /// Sets the retry ceiling.
    pub fn with_max_retries(self, retries: u32) -> (r: Self)
        ensures
            r == (Self { max_retries: Some(retries), ..self }),
    {
        Self { max_retries: Some(retries), ..self }
    }

    /// Switches debug logging.
    pub fn with_debug(self, debug: bool) -> (r: Self)
        ensures
            r == (Self { debug, ..self }),
    {
        Self { debug, ..self }
    }
}

} // verus!
