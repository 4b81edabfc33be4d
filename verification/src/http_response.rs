//! The response wrapper: status inspection any number of times, and
//! body-consuming accessors that take the wrapper by value, so a second
//! read is impossible by ownership.

use vstd::prelude::*;

use crate::error::{HttpError, HttpResult};
use crate::http_status_code::HttpStatusCode;
use crate::json_codec::{format_decode_error, json_parse, lossy_utf8, parse_json_bytes,
    utf8_lossy_of};

verus! {

/// What one successful transport attempt hands back: the numeric status,
/// the final URL, and the drained body bytes.
#[derive(Debug)]
pub struct TransportReply {
    pub status: u16,
    pub url: String,
    pub body: Vec<u8>,
}

/// A response, owned exactly once; the body accessors consume it.
#[derive(Debug)]
pub struct HttpResponse {
    /// The numeric status code of the response.
    pub status: u16,
    /// The URL the response was received from.
    pub url: String,
    /// The response body.
    pub body: Vec<u8>,
}

impl HttpResponse {
    /// Wrap a transport reply.
    pub fn new(reply: TransportReply) -> (r: Self)
        ensures
            r.status == reply.status,
            r.url == reply.url,
            r.body == reply.body,
    {
        HttpResponse { status: reply.status, url: reply.url, body: reply.body }
    }

    /// Give the underlying transport reply back, consuming the wrapper.
    pub fn into_inner(self) -> (r: TransportReply)
        ensures
            r.status == self.status,
            r.url == self.url,
            r.body == self.body,
    {
        TransportReply { status: self.status, url: self.url, body: self.body }
    }

    /// The response's status, in the status-code model; total, so any
    /// numeric code the transport reports maps to a status.
    pub fn status(&self) -> (r: HttpStatusCode)
        ensures
            r == HttpStatusCode::spec_from_u16(self.status),
    {
        HttpStatusCode::from_u16(self.status)
    }

    /// Decode the body as a JSON value, consuming the response; fails
    /// exactly when the JSON library rejects the bytes, and then carries a
    /// diagnostic naming the URL, the status and the body.
    pub fn json(self) -> (r: HttpResult<serde_json::Value>)
        ensures
            r is Ok <==> json_parse(self.body@) is Some,
            r matches Ok(v) ==> json_parse(self.body@) == Some(v),
            r matches Err(e) ==> e is Custom,
    {
        match parse_json_bytes(&self.body) {
            Ok(value) => Ok(value),
            Err(decode_error) => {
                let body_text = lossy_utf8(&self.body);
                let message = format_decode_error(
                    self.url.as_str(),
                    self.status,
                    body_text.as_str(),
                    &decode_error,
                );
                Err(HttpError::Custom(message))
            },
        }
    }

    /// The raw body bytes, consuming the response.
    pub fn json_bytes(self) -> (r: HttpResult<Vec<u8>>)
        ensures
            r matches Ok(b) && b == self.body,
    {
        Ok(self.body)
    }

    /// The body decoded as text, with replacement characters where it is
    /// not UTF-8, consuming the response.
    pub fn text(self) -> (r: HttpResult<String>)
        ensures
            r matches Ok(t) && t@ == utf8_lossy_of(self.body@),
    {
        Ok(lossy_utf8(&self.body))
    }
}

} // verus!
