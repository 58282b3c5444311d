//! The client value: validated configuration with a normalized base URL,
//! pre-built default headers, and the effective timeout and retry ceiling.
use vstd::prelude::*;
use vstd::string::*;

use crate::error::APIError;
use crate::headers::{
    build_header_plan, headers_valid, spec_header_plan, spec_headers_valid, spec_pairs_view,
};
use crate::options::{ClientOptions, DEFAULT_MAX_RETRIES, DEFAULT_TIMEOUT_SECS};
use crate::text::{lemma_trim_end_slashes_push, spec_trim_end_slashes, trim_end_slashes};

verus! {

/// The effective per-attempt timeout of a configuration.
pub open spec fn spec_effective_timeout(t: Option<u64>) -> u64 {
    match t {
        Some(secs) => secs,
        None => DEFAULT_TIMEOUT_SECS,
    }
}

/// The effective retry ceiling of a configuration.
pub open spec fn spec_effective_retries(m: Option<u32>) -> u32 {
    match m {
        Some(n) => n,
        None => DEFAULT_MAX_RETRIES,
    }
}

/// The error with which construction fails when a header cannot be encoded.
pub open spec fn spec_is_header_error(e: APIError) -> bool {
    &&& e.message@ == "Invalid header name or value"@
    &&& e.status is None
    &&& e.code is None
    &&& e.details is None
    &&& e.request_id is None
}

/// The main SDK client: immutable after construction and safe to share.
#[derive(Debug)]
pub struct Client {
    /// Normalized base URL: never ends with `/`.
    pub base_url: String,
    /// Per-attempt timeout in seconds, baked into the transport.
    pub timeout_secs: u64,
    /// Upper bound on additional attempts after the first.
    pub max_retries: u32,
    /// Whether diagnostic logging is enabled.
    pub debug: bool,
    /// The default headers, in order; later entries win on collision.
    pub default_headers: Vec<(String, String)>,
}

impl Client {
    /// Builds a client from its configuration: normalizes the base URL,
    /// computes the effective timeout and retry ceiling, and assembles the
    /// default headers, failing if any of them cannot be encoded.
    pub fn new(options: ClientOptions) -> (r: Result<Client, APIError>)
        ensures
            r is Ok <==> spec_headers_valid(spec_header_plan(options)),
            r matches Ok(c) ==> {
                &&& c.base_url@ == spec_trim_end_slashes(options.base_url@)
                &&& c.timeout_secs == spec_effective_timeout(options.timeout_secs)
                &&& c.max_retries == spec_effective_retries(options.max_retries)
                &&& c.debug == options.debug
                &&& spec_pairs_view(c.default_headers@) == spec_header_plan(options)
            },
            r matches Err(e) ==> spec_is_header_error(e),
    {
        let ClientOptions {
            base_url,
            api_key,
            bearer_token,
            timeout_secs,
            max_retries,
            user_agent,
            custom_headers,
            debug,
        } = options;
        let headers = build_header_plan(user_agent, bearer_token, api_key, custom_headers);
        if !headers_valid(&headers) {
            return Err(
                APIError {
                    message: String::from_str("Invalid header name or value"),
                    status: None,
                    code: None,
                    details: None,
                    request_id: None,
                },
            );
        }
        let timeout = match timeout_secs {
            Some(secs) => secs,
            None => DEFAULT_TIMEOUT_SECS,
        };
        let retries = match max_retries {
            Some(n) => n,
            None => DEFAULT_MAX_RETRIES,
        };
        Ok(
            Client {
                base_url: trim_end_slashes(base_url.as_str()),
                timeout_secs: timeout,
                max_retries: retries,
                debug,
                default_headers: headers,
            },
        )
    }

    /// The URL a path is sent to: the normalized base followed by the path.
    pub fn request_url(&self, path: &str) -> (r: String)
        ensures
            r@ == self.base_url@ + path@,
    {
        self.base_url.clone().concat(path)
    }
}

/// Outgoing URLs do not change when the configured base URL gains a
/// trailing slash: normalization strips it.
pub proof fn lemma_base_url_trailing_slash(base: Seq<char>, path: Seq<char>)
    ensures
        spec_trim_end_slashes(base.push('/')) + path == spec_trim_end_slashes(base) + path,
{
    lemma_trim_end_slashes_push(base);
}

/// The extra headers of a POST: the idempotency key if one is given, and
/// no header set at all otherwise.
pub fn post_extra_headers(idempotency_key: Option<String>) -> (r: Option<Vec<(String, String)>>)
    ensures
        match idempotency_key {
            Some(k) => r matches Some(hs) && hs@.len() == 1 && hs@[0].0@ == "Idempotency-Key"@
                && hs@[0].1@ == k@,
            None => r is None,
        },
{
    match idempotency_key {
        Some(k) => {
            let mut hs: Vec<(String, String)> = Vec::new();
            hs.push((String::from_str("Idempotency-Key"), k));
            Some(hs)
        },
        None => None,
    }
}

} // verus!
