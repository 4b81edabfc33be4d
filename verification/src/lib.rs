//! An HTTP client abstraction layer: it wraps a lower-level transport
//! engine with composable request/response interceptors, retry with fixed
//! backoff, base-URL resolution, and a typed status-code model.
//!
//! The heart of the crate is the execution pipeline in [`http_client`]: URL
//! resolution, interception, query and body application, and the retry
//! loop, each step with a contract that pins its effect.

pub mod error;
pub mod http_client;
pub mod http_headers;
pub mod http_method;
pub mod http_request;
pub mod http_response;
pub mod http_status_code;
pub mod http_url;
pub mod json_codec;
