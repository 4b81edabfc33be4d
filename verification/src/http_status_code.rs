//! A closed model of the standard HTTP status codes, with an escape variant
//! for every other numeric code.
//!
//! Classification (success, client error, ...) is a function of the numeric
//! value alone, so an escape-wrapped standard number classifies the same way
//! as its named counterpart.

use vstd::prelude::*;

verus! {

/// The standard status codes of the 100..=511 range by name, plus `Custom`
/// for any other numeric code.
#[derive(Clone, Copy, Debug, PartialEq, Eq, Structural)]
pub enum HttpStatusCode {
    Continue,
    SwitchingProtocols,
    Processing,
    EarlyHints,
    Okay,
    Created,
    Accepted,
    NonAuthoritativeInformation,
    NoContent,
    ResetContent,
    PartialContent,
    MultiStatus,
    AlreadyReported,
    ImUsed,
    MultipleChoices,
    MovedPermanently,
    Found,
    SeeOther,
    NotModified,
    UseProxy,
    TemporaryRedirect,
    PermanentRedirect,
    BadRequest,
    Unauthorized,
    PaymentRequired,
    Forbidden,
    NotFound,
    MethodNotAllowed,
    NotAcceptable,
    ProxyAuthenticationRequired,
    RequestTimeout,
    Conflict,
    Gone,
    LengthRequired,
    PreconditionFailed,
    PayloadTooLarge,
    UriTooLong,
    UnsupportedMediaType,
    RangeNotSatisfiable,
    ExpectationFailed,
    ImATeapot,
    MisdirectedRequest,
    UnprocessableEntity,
    Locked,
    FailedDependency,
    TooEarly,
    UpgradeRequired,
    PreconditionRequired,
    TooManyRequests,
    RequestHeaderFieldsTooLarge,
    UnavailableForLegalReasons,
    InternalServerError,
    NotImplemented,
    BadGateway,
    ServiceUnavailable,
    GatewayTimeout,
    HttpVersionNotSupported,
    VariantAlsoNegotiates,
    InsufficientStorage,
    LoopDetected,
    NotExtended,
    NetworkAuthenticationRequired,
    Custom(u16),
}

impl HttpStatusCode {
    /// The numeric value a status stands for.
    pub open spec fn code_spec(self) -> u16 {
        match self {
            HttpStatusCode::Continue => 100,
            HttpStatusCode::SwitchingProtocols => 101,
            HttpStatusCode::Processing => 102,
            HttpStatusCode::EarlyHints => 103,
            HttpStatusCode::Okay => 200,
            HttpStatusCode::Created => 201,
            HttpStatusCode::Accepted => 202,
            HttpStatusCode::NonAuthoritativeInformation => 203,
            HttpStatusCode::NoContent => 204,
            HttpStatusCode::ResetContent => 205,
            HttpStatusCode::PartialContent => 206,
            HttpStatusCode::MultiStatus => 207,
            HttpStatusCode::AlreadyReported => 208,
            HttpStatusCode::ImUsed => 226,
            HttpStatusCode::MultipleChoices => 300,
            HttpStatusCode::MovedPermanently => 301,
            HttpStatusCode::Found => 302,
            HttpStatusCode::SeeOther => 303,
            HttpStatusCode::NotModified => 304,
            HttpStatusCode::UseProxy => 305,
            HttpStatusCode::TemporaryRedirect => 307,
            HttpStatusCode::PermanentRedirect => 308,
            HttpStatusCode::BadRequest => 400,
            HttpStatusCode::Unauthorized => 401,
            HttpStatusCode::PaymentRequired => 402,
            HttpStatusCode::Forbidden => 403,
            HttpStatusCode::NotFound => 404,
            HttpStatusCode::MethodNotAllowed => 405,
            HttpStatusCode::NotAcceptable => 406,
            HttpStatusCode::ProxyAuthenticationRequired => 407,
            HttpStatusCode::RequestTimeout => 408,
            HttpStatusCode::Conflict => 409,
            HttpStatusCode::Gone => 410,
            HttpStatusCode::LengthRequired => 411,
            HttpStatusCode::PreconditionFailed => 412,
            HttpStatusCode::PayloadTooLarge => 413,
            HttpStatusCode::UriTooLong => 414,
            HttpStatusCode::UnsupportedMediaType => 415,
            HttpStatusCode::RangeNotSatisfiable => 416,
            HttpStatusCode::ExpectationFailed => 417,
            HttpStatusCode::ImATeapot => 418,
            HttpStatusCode::MisdirectedRequest => 421,
            HttpStatusCode::UnprocessableEntity => 422,
            HttpStatusCode::Locked => 423,
            HttpStatusCode::FailedDependency => 424,
            HttpStatusCode::TooEarly => 425,
            HttpStatusCode::UpgradeRequired => 426,
            HttpStatusCode::PreconditionRequired => 428,
            HttpStatusCode::TooManyRequests => 429,
            HttpStatusCode::RequestHeaderFieldsTooLarge => 431,
            HttpStatusCode::UnavailableForLegalReasons => 451,
            HttpStatusCode::InternalServerError => 500,
            HttpStatusCode::NotImplemented => 501,
            HttpStatusCode::BadGateway => 502,
            HttpStatusCode::ServiceUnavailable => 503,
            HttpStatusCode::GatewayTimeout => 504,
            HttpStatusCode::HttpVersionNotSupported => 505,
            HttpStatusCode::VariantAlsoNegotiates => 506,
            HttpStatusCode::InsufficientStorage => 507,
            HttpStatusCode::LoopDetected => 508,
            HttpStatusCode::NotExtended => 510,
            HttpStatusCode::NetworkAuthenticationRequired => 511,
            HttpStatusCode::Custom(code) => code,
        }
    }

    /// Whether a numeric code has a named variant of its own.
    pub open spec fn is_standard_code(code: u16) -> bool {
        ||| code == 100 ||| code == 101 ||| code == 102 ||| code == 103
        ||| code == 200 ||| code == 201 ||| code == 202 ||| code == 203
        ||| code == 204 ||| code == 205 ||| code == 206 ||| code == 207
        ||| code == 208 ||| code == 226
        ||| code == 300 ||| code == 301 ||| code == 302 ||| code == 303
        ||| code == 304 ||| code == 305 ||| code == 307 ||| code == 308
        ||| code == 400 ||| code == 401 ||| code == 402 ||| code == 403
        ||| code == 404 ||| code == 405 ||| code == 406 ||| code == 407
        ||| code == 408 ||| code == 409 ||| code == 410 ||| code == 411
        ||| code == 412 ||| code == 413 ||| code == 414 ||| code == 415
        ||| code == 416 ||| code == 417 ||| code == 418 ||| code == 421
        ||| code == 422 ||| code == 423 ||| code == 424 ||| code == 425
        ||| code == 426 ||| code == 428 ||| code == 429 ||| code == 431
        ||| code == 451
        ||| code == 500 ||| code == 501 ||| code == 502 ||| code == 503
        ||| code == 504 ||| code == 505 ||| code == 506 ||| code == 507
        ||| code == 508 ||| code == 510 ||| code == 511
    }

    /// Get the numeric status code.
    pub fn as_u16(&self) -> (r: u16)
        ensures
            r == self.code_spec(),
    {
        match self {
            HttpStatusCode::Continue => 100,
            HttpStatusCode::SwitchingProtocols => 101,
            HttpStatusCode::Processing => 102,
            HttpStatusCode::EarlyHints => 103,
            HttpStatusCode::Okay => 200,
            HttpStatusCode::Created => 201,
            HttpStatusCode::Accepted => 202,
            HttpStatusCode::NonAuthoritativeInformation => 203,
            HttpStatusCode::NoContent => 204,
            HttpStatusCode::ResetContent => 205,
            HttpStatusCode::PartialContent => 206,
            HttpStatusCode::MultiStatus => 207,
            HttpStatusCode::AlreadyReported => 208,
            HttpStatusCode::ImUsed => 226,
            HttpStatusCode::MultipleChoices => 300,
            HttpStatusCode::MovedPermanently => 301,
            HttpStatusCode::Found => 302,
            HttpStatusCode::SeeOther => 303,
            HttpStatusCode::NotModified => 304,
            HttpStatusCode::UseProxy => 305,
            HttpStatusCode::TemporaryRedirect => 307,
            HttpStatusCode::PermanentRedirect => 308,
            HttpStatusCode::BadRequest => 400,
            HttpStatusCode::Unauthorized => 401,
            HttpStatusCode::PaymentRequired => 402,
            HttpStatusCode::Forbidden => 403,
            HttpStatusCode::NotFound => 404,
            HttpStatusCode::MethodNotAllowed => 405,
            HttpStatusCode::NotAcceptable => 406,
            HttpStatusCode::ProxyAuthenticationRequired => 407,
            HttpStatusCode::RequestTimeout => 408,
            HttpStatusCode::Conflict => 409,
            HttpStatusCode::Gone => 410,
            HttpStatusCode::LengthRequired => 411,
            HttpStatusCode::PreconditionFailed => 412,
            HttpStatusCode::PayloadTooLarge => 413,
            HttpStatusCode::UriTooLong => 414,
            HttpStatusCode::UnsupportedMediaType => 415,
            HttpStatusCode::RangeNotSatisfiable => 416,
            HttpStatusCode::ExpectationFailed => 417,
            HttpStatusCode::ImATeapot => 418,
            HttpStatusCode::MisdirectedRequest => 421,
            HttpStatusCode::UnprocessableEntity => 422,
            HttpStatusCode::Locked => 423,
            HttpStatusCode::FailedDependency => 424,
            HttpStatusCode::TooEarly => 425,
            HttpStatusCode::UpgradeRequired => 426,
            HttpStatusCode::PreconditionRequired => 428,
            HttpStatusCode::TooManyRequests => 429,
            HttpStatusCode::RequestHeaderFieldsTooLarge => 431,
            HttpStatusCode::UnavailableForLegalReasons => 451,
            HttpStatusCode::InternalServerError => 500,
            HttpStatusCode::NotImplemented => 501,
            HttpStatusCode::BadGateway => 502,
            HttpStatusCode::ServiceUnavailable => 503,
            HttpStatusCode::GatewayTimeout => 504,
            HttpStatusCode::HttpVersionNotSupported => 505,
            HttpStatusCode::VariantAlsoNegotiates => 506,
            HttpStatusCode::InsufficientStorage => 507,
            HttpStatusCode::LoopDetected => 508,
            HttpStatusCode::NotExtended => 510,
            HttpStatusCode::NetworkAuthenticationRequired => 511,
            HttpStatusCode::Custom(code) => *code,
        }
    }

    /// The status a numeric code maps to: the named variant for a standard
    /// code, `Custom` for every other code.
    pub open spec fn spec_from_u16(code: u16) -> HttpStatusCode {
        match code {
            100u16 => HttpStatusCode::Continue,
            101u16 => HttpStatusCode::SwitchingProtocols,
            102u16 => HttpStatusCode::Processing,
            103u16 => HttpStatusCode::EarlyHints,
            200u16 => HttpStatusCode::Okay,
            201u16 => HttpStatusCode::Created,
            202u16 => HttpStatusCode::Accepted,
            203u16 => HttpStatusCode::NonAuthoritativeInformation,
            204u16 => HttpStatusCode::NoContent,
            205u16 => HttpStatusCode::ResetContent,
            206u16 => HttpStatusCode::PartialContent,
            207u16 => HttpStatusCode::MultiStatus,
            208u16 => HttpStatusCode::AlreadyReported,
            226u16 => HttpStatusCode::ImUsed,
            300u16 => HttpStatusCode::MultipleChoices,
            301u16 => HttpStatusCode::MovedPermanently,
            302u16 => HttpStatusCode::Found,
            303u16 => HttpStatusCode::SeeOther,
            304u16 => HttpStatusCode::NotModified,
            305u16 => HttpStatusCode::UseProxy,
            307u16 => HttpStatusCode::TemporaryRedirect,
            308u16 => HttpStatusCode::PermanentRedirect,
            400u16 => HttpStatusCode::BadRequest,
            401u16 => HttpStatusCode::Unauthorized,
            402u16 => HttpStatusCode::PaymentRequired,
            403u16 => HttpStatusCode::Forbidden,
            404u16 => HttpStatusCode::NotFound,
            405u16 => HttpStatusCode::MethodNotAllowed,
            406u16 => HttpStatusCode::NotAcceptable,
            407u16 => HttpStatusCode::ProxyAuthenticationRequired,
            408u16 => HttpStatusCode::RequestTimeout,
            409u16 => HttpStatusCode::Conflict,
            410u16 => HttpStatusCode::Gone,
            411u16 => HttpStatusCode::LengthRequired,
            412u16 => HttpStatusCode::PreconditionFailed,
            413u16 => HttpStatusCode::PayloadTooLarge,
            414u16 => HttpStatusCode::UriTooLong,
            415u16 => HttpStatusCode::UnsupportedMediaType,
            416u16 => HttpStatusCode::RangeNotSatisfiable,
            417u16 => HttpStatusCode::ExpectationFailed,
            418u16 => HttpStatusCode::ImATeapot,
            421u16 => HttpStatusCode::MisdirectedRequest,
            422u16 => HttpStatusCode::UnprocessableEntity,
            423u16 => HttpStatusCode::Locked,
            424u16 => HttpStatusCode::FailedDependency,
            425u16 => HttpStatusCode::TooEarly,
            426u16 => HttpStatusCode::UpgradeRequired,
            428u16 => HttpStatusCode::PreconditionRequired,
            429u16 => HttpStatusCode::TooManyRequests,
            431u16 => HttpStatusCode::RequestHeaderFieldsTooLarge,
            451u16 => HttpStatusCode::UnavailableForLegalReasons,
            500u16 => HttpStatusCode::InternalServerError,
            501u16 => HttpStatusCode::NotImplemented,
            502u16 => HttpStatusCode::BadGateway,
            503u16 => HttpStatusCode::ServiceUnavailable,
            504u16 => HttpStatusCode::GatewayTimeout,
            505u16 => HttpStatusCode::HttpVersionNotSupported,
            506u16 => HttpStatusCode::VariantAlsoNegotiates,
            507u16 => HttpStatusCode::InsufficientStorage,
            508u16 => HttpStatusCode::LoopDetected,
            510u16 => HttpStatusCode::NotExtended,
            511u16 => HttpStatusCode::NetworkAuthenticationRequired,
            _ => HttpStatusCode::Custom(code),
        }
    }

    /// Total conversion from a numeric code: every standard code maps to its
    /// named variant and every other code to `Custom`, so no input fails.
    pub fn from_u16(code: u16) -> (r: Self)
        ensures
            r == Self::spec_from_u16(code),
            r.code_spec() == code,
            !(r is Custom) <==> Self::is_standard_code(code),
    {
        match code {
            100 => HttpStatusCode::Continue,
            101 => HttpStatusCode::SwitchingProtocols,
            102 => HttpStatusCode::Processing,
            103 => HttpStatusCode::EarlyHints,
            200 => HttpStatusCode::Okay,
            201 => HttpStatusCode::Created,
            202 => HttpStatusCode::Accepted,
            203 => HttpStatusCode::NonAuthoritativeInformation,
            204 => HttpStatusCode::NoContent,
            205 => HttpStatusCode::ResetContent,
            206 => HttpStatusCode::PartialContent,
            207 => HttpStatusCode::MultiStatus,
            208 => HttpStatusCode::AlreadyReported,
            226 => HttpStatusCode::ImUsed,
            300 => HttpStatusCode::MultipleChoices,
            301 => HttpStatusCode::MovedPermanently,
            302 => HttpStatusCode::Found,
            303 => HttpStatusCode::SeeOther,
            304 => HttpStatusCode::NotModified,
            305 => HttpStatusCode::UseProxy,
            307 => HttpStatusCode::TemporaryRedirect,
            308 => HttpStatusCode::PermanentRedirect,
            400 => HttpStatusCode::BadRequest,
            401 => HttpStatusCode::Unauthorized,
            402 => HttpStatusCode::PaymentRequired,
            403 => HttpStatusCode::Forbidden,
            404 => HttpStatusCode::NotFound,
            405 => HttpStatusCode::MethodNotAllowed,
            406 => HttpStatusCode::NotAcceptable,
            407 => HttpStatusCode::ProxyAuthenticationRequired,
            408 => HttpStatusCode::RequestTimeout,
            409 => HttpStatusCode::Conflict,
            410 => HttpStatusCode::Gone,
            411 => HttpStatusCode::LengthRequired,
            412 => HttpStatusCode::PreconditionFailed,
            413 => HttpStatusCode::PayloadTooLarge,
            414 => HttpStatusCode::UriTooLong,
            415 => HttpStatusCode::UnsupportedMediaType,
            416 => HttpStatusCode::RangeNotSatisfiable,
            417 => HttpStatusCode::ExpectationFailed,
            418 => HttpStatusCode::ImATeapot,
            421 => HttpStatusCode::MisdirectedRequest,
            422 => HttpStatusCode::UnprocessableEntity,
            423 => HttpStatusCode::Locked,
            424 => HttpStatusCode::FailedDependency,
            425 => HttpStatusCode::TooEarly,
            426 => HttpStatusCode::UpgradeRequired,
            428 => HttpStatusCode::PreconditionRequired,
            429 => HttpStatusCode::TooManyRequests,
            431 => HttpStatusCode::RequestHeaderFieldsTooLarge,
            451 => HttpStatusCode::UnavailableForLegalReasons,
            500 => HttpStatusCode::InternalServerError,
            501 => HttpStatusCode::NotImplemented,
            502 => HttpStatusCode::BadGateway,
            503 => HttpStatusCode::ServiceUnavailable,
            504 => HttpStatusCode::GatewayTimeout,
            505 => HttpStatusCode::HttpVersionNotSupported,
            506 => HttpStatusCode::VariantAlsoNegotiates,
            507 => HttpStatusCode::InsufficientStorage,
            508 => HttpStatusCode::LoopDetected,
            510 => HttpStatusCode::NotExtended,
            511 => HttpStatusCode::NetworkAuthenticationRequired,
            _ => HttpStatusCode::Custom(code),
        }
    }

    /// Check if the status code indicates success (2xx).
    pub fn is_success(&self) -> (r: bool)
        ensures
            r == (200 <= self.code_spec() < 300),
    {
        let code = self.as_u16();
        code >= 200 && code < 300
    }

    /// Check if the status code indicates a client error (4xx).
    pub fn is_client_error(&self) -> (r: bool)
        ensures
            r == (400 <= self.code_spec() < 500),
    {
        let code = self.as_u16();
        code >= 400 && code < 500
    }

    /// Check if the status code indicates a server error (5xx).
    pub fn is_server_error(&self) -> (r: bool)
        ensures
            r == (500 <= self.code_spec() < 600),
    {
        let code = self.as_u16();
        code >= 500 && code < 600
    }

    /// Check if the status code indicates an error (4xx or 5xx).
    pub fn is_error(&self) -> (r: bool)
        ensures
            r == (400 <= self.code_spec() < 600),
    {
        self.is_client_error() || self.is_server_error()
    }

    /// Check if the status code indicates a redirection (3xx).
    pub fn is_redirection(&self) -> (r: bool)
        ensures
            r == (300 <= self.code_spec() < 400),
    {
        let code = self.as_u16();
        code >= 300 && code < 400
    }

    /// Check if the status code indicates an informational response (1xx).
    pub fn is_informational(&self) -> (r: bool)
        ensures
            r == (100 <= self.code_spec() < 200),
    {
        let code = self.as_u16();
        code >= 100 && code < 200
    }
}

/// Converting a numeric code into the model and back to a number is the
/// identity, for standard and non-standard codes alike.
pub proof fn lemma_status_code_roundtrip(code: u16)
    ensures
        HttpStatusCode::spec_from_u16(code).code_spec() == code,
{
}

/// Converting a named status to its number and back restores the same named
/// variant, so the numeric mapping loses nothing on the standard codes.
pub proof fn lemma_named_status_roundtrip(status: HttpStatusCode)
    requires
        !(status is Custom),
    ensures
        HttpStatusCode::spec_from_u16(status.code_spec()) == status,
{
}

} // verus!
