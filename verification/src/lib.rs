//! A thin client SDK for a JSON API: uniform request construction,
//! bounded retry with exponential backoff honoring server hints, structured
//! error parsing, and cursor pagination.
pub mod client;
pub mod error;
pub mod headers;
pub mod json;
pub mod options;
pub mod paginate;
pub mod pipeline;
pub mod retry;
pub mod text;
