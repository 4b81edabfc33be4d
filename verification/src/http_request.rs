//! The request descriptor: a builder holding method, URL, headers, and the
//! optional path, query parameters, JSON body and retry policy, together
//! with the mutations the pipeline applies to it.

use vstd::prelude::*;

use crate::error::HttpError;
use crate::http_headers::{check_header_name, check_header_value, header_name_ok, header_value_ok,
    HttpHeaders};
use crate::http_method::HttpMethod;
use crate::http_url::{url_path_of, url_normalize, url_with_query, pair_views, HttpUrl,
    HttpUrlError};
use crate::json_codec::{json_text_of, json_value_to_string};

verus! {

/// Declared maximum attempts and fixed inter-attempt delay.
#[derive(Clone, Copy, Debug, PartialEq, Eq, Structural)]
pub struct RetryPolicy {
    pub max_attempts: u32,
    pub backoff_millis: u64,
}

impl RetryPolicy {
    /// The policy an execution runs under: the request-level policy if
    /// present, else the client default, else one attempt with no delay; a
    /// declared maximum of 0 is raised to the documented minimum of 1.
    pub open spec fn spec_effective(
        request_policy: Option<RetryPolicy>,
        default_policy: Option<RetryPolicy>,
    ) -> RetryPolicy {
        let chosen = match request_policy {
            Some(p) => p,
            None => match default_policy {
                Some(p) => p,
                None => RetryPolicy { max_attempts: 1, backoff_millis: 0 },
            },
        };
        if chosen.max_attempts == 0 {
            RetryPolicy { max_attempts: 1, backoff_millis: chosen.backoff_millis }
        } else {
            chosen
        }
    }

    /// Resolve the effective policy from the request-level policy and the
    /// client-level default.
    pub fn effective(
        request_policy: &Option<RetryPolicy>,
        default_policy: &Option<RetryPolicy>,
    ) -> (r: RetryPolicy)
        ensures
            r == Self::spec_effective(*request_policy, *default_policy),
            r.max_attempts >= 1,
    {
        let chosen = match request_policy {
            Some(p) => *p,
            None => match default_policy {
                Some(p) => *p,
                None => RetryPolicy { max_attempts: 1, backoff_millis: 0 },
            },
        };
        if chosen.max_attempts == 0 {
            RetryPolicy { max_attempts: 1, backoff_millis: chosen.backoff_millis }
        } else {
            chosen
        }
    }
}

/// A mutable request descriptor, consumed by the pipeline on execution.
#[derive(Debug)]
pub struct HttpRequest {
    /// The request method.
    pub method: HttpMethod,
    /// The outbound URL; starts as a placeholder that base-URL resolution
    /// replaces.
    pub url: HttpUrl,
    /// The outbound headers.
    pub headers: HttpHeaders,
    /// The serialized outbound body, set once the JSON body is applied.
    pub body: Option<String>,
    /// A per-request retry policy, overriding the client default.
    pub retry_policy: Option<RetryPolicy>,
    /// A path to resolve against the client's base URL.
    pub path: Option<String>,
    /// Query pairs to append to the URL, in order.
    pub query_params: Option<Vec<(String, String)>>,
    /// A structured body to serialize as JSON.
    pub json_body: Option<serde_json::Value>,
}

impl HttpRequest {
    /// Build a request for a method and a path; the URL is a placeholder
    /// until the pipeline resolves the path against a base URL.
    pub fn new(method: HttpMethod, path: &str) -> (r: Result<HttpRequest, HttpUrlError>)
        ensures
            r is Ok <==> url_normalize("http://placeholder.com"@) is Some,
            r matches Ok(q) ==> q.method == method && (q.path matches Some(p) && p@ == path@)
                && Some(q.url@) == url_normalize("http://placeholder.com"@) && q.headers@
                == Map::<Seq<char>, Seq<char>>::empty() && q.body is None && q.retry_policy is None
                && q.query_params is None && q.json_body is None,
    {
        match HttpUrl::parse("http://placeholder.com") {
            Ok(url) => Ok(
                HttpRequest {
                    method,
                    url,
                    headers: HttpHeaders::new(),
                    body: None,
                    retry_policy: None,
                    path: Some(path.to_owned()),
                    query_params: None,
                    json_body: None,
                },
            ),
            Err(e) => Err(e),
        }
    }

    /// Set the path to resolve against the base URL.
    pub fn with_path(self, path: &str) -> (r: Self)
        ensures
            r == (HttpRequest { path: r.path, ..self }),
            r.path matches Some(p) && p@ == path@,
    {
        HttpRequest { path: Some(path.to_owned()), ..self }
    }

    /// Set the query pairs to append to the URL.
    pub fn with_query_params(self, params: Vec<(String, String)>) -> (r: Self)
        ensures
            r == (HttpRequest { query_params: Some(params), ..self }),
    {
        HttpRequest { query_params: Some(params), ..self }
    }

    /// Set the structured body to send as JSON.
    pub fn with_json_body(self, body: serde_json::Value) -> (r: Self)
        ensures
            r == (HttpRequest { json_body: Some(body), ..self }),
    {
        HttpRequest { json_body: Some(body), ..self }
    }

    /// Set the per-request retry policy.
    pub fn with_retry_policy(self, policy: RetryPolicy) -> (r: Self)
        ensures
            r == (HttpRequest { retry_policy: Some(policy), ..self }),
    {
        HttpRequest { retry_policy: Some(policy), ..self }
    }

    /// Set a header after validating its name and value; fails, leaving the
    /// request unchanged, exactly when the engine's validators refuse either.
    pub fn add_header(&mut self, name: &str, value: &str) -> (r: Result<(), HttpError>)
        ensures
            r is Ok <==> header_name_ok(name@) && header_value_ok(value@),
            r is Ok ==> *final(self) == (HttpRequest {
                headers: final(self).headers,
                ..*old(self)
            }) && final(self).headers@ == old(self).headers@.insert(name@, value@),
            r is Err ==> *final(self) == *old(self),
            r matches Err(e) ==> e is Custom,
    {
        if !check_header_name(name) {
            return Err(HttpError::Custom("invalid header name".to_owned()));
        }
        if !check_header_value(value) {
            return Err(HttpError::Custom("invalid header value".to_owned()));
        }
        self.headers.insert(name, value);
        Ok(())
    }

    /// The method's name, as it appears in a request line.
    pub fn get_method(&self) -> (r: &'static str)
        ensures
            r@ == self.method.name_spec(),
    {
        self.method.as_str()
    }

    /// The path component of the request's current URL.
    pub fn get_url_path(&self) -> (r: String)
        ensures
            r@ == url_path_of(self.url@),
    {
        self.url.path_text()
    }

    /// Replace the request's URL.
    pub fn set_url(&mut self, url: HttpUrl)
        ensures
            *final(self) == (HttpRequest { url, ..*old(self) }),
    {
        self.url = url;
    }

    /// Append the query pairs, if any are present, onto the current URL,
    /// keeping any query the URL already carries.
    pub fn apply_query_params(&mut self)
        ensures
            *final(self) == (HttpRequest { url: final(self).url, ..*old(self) }),
            match old(self).query_params {
                Some(pairs) => final(self).url@ == url_with_query(
                    old(self).url@,
                    pair_views(pairs@),
                ),
                None => final(self).url == old(self).url,
            },
    {
        if let Some(pairs) = &self.query_params {
            let with_query = self.url.with_query_pairs(pairs);
            self.url = with_query;
        }
    }

    /// Serialize the JSON body, if one is present, into the outbound body,
    /// and set the content-type header, overwriting any prior one.
    pub fn apply_json_body(&mut self)
        ensures
            *final(self) == (HttpRequest {
                body: final(self).body,
                headers: final(self).headers,
                ..*old(self)
            }),
            match old(self).json_body {
                Some(value) => (final(self).body matches Some(b) && b@ == json_text_of(value))
                    && final(self).headers@ == old(self).headers@.insert(
                    "content-type"@,
                    "application/json"@,
                ),
                None => final(self).body == old(self).body && final(self).headers
                    == old(self).headers,
            },
    {
        if let Some(value) = &self.json_body {
            let text = json_value_to_string(value);
            self.body = Some(text);
            self.headers.insert("content-type", "application/json");
        }
    }
}

} // verus!
