//! The closed vocabulary of HTTP status codes, each with its numeric code
//! and canonical reason phrase.

use vstd::prelude::*;
use crate::text::spec_decimal;

verus! {

/// A standard HTTP status code.
#[derive(Clone, Copy, Debug, PartialEq, Eq, Structural)]
pub enum Status {
    Continue,
    SwitchingProtocols,
    Processing,
    OK,
    Created,
    Accepted,
    NonAuthoritativeInformation,
    NoContent,
    ResetContent,
    PartialContent,
    MultiStatus,
    AlreadyReported,
    IMUsed,
    MultipleChoices,
    MovedPermanently,
    Found,
    SeeOther,
    NotModified,
    UseProxy,
    TemporaryRedirect,
    PermanentRedirect,
    BadRequest,
    Unauthorized,
    PaymentRequired,
    Forbidden,
    NotFound,
    MethodNotAllowed,
    NotAcceptable,
    ProxyAuthenticationRequired,
    RequestTimeout,
    Conflict,
    Gone,
    LengthRequired,
    PreconditionFailed,
    PayloadTooLarge,
    UriTooLong,
    UnsupportedMediaType,
    RangeNotSatisfiable,
    ExpectationFailed,
    ImATeapot,
    MisdirectedRequest,
    UnprocessableEntity,
    Locked,
    FailedDependency,
    TooEarly,
    UpgradeRequired,
    PreconditionRequired,
    TooManyRequests,
    RequestHeaderFieldsTooLarge,
    UnavailableForLegalReasons,
    InternalServerError,
    NotImplemented,
    BadGateway,
    ServiceUnavailable,
    GatewayTimeout,
    HttpVersionNotSupported,
    VariantAlsoNegotiates,
    InsufficientStorage,
    LoopDetected,
    NotExtended,
    NetworkAuthenticationRequired,
}

impl Status {
    /// The numeric code of the status.
    pub open spec fn spec_code(self) -> u16 {
        match self {
            Status::Continue => 100,
            Status::SwitchingProtocols => 101,
            Status::Processing => 102,
            Status::OK => 200,
            Status::Created => 201,
            Status::Accepted => 202,
            Status::NonAuthoritativeInformation => 203,
            Status::NoContent => 204,
            Status::ResetContent => 205,
            Status::PartialContent => 206,
            Status::MultiStatus => 207,
            Status::AlreadyReported => 208,
            Status::IMUsed => 226,
            Status::MultipleChoices => 300,
            Status::MovedPermanently => 301,
            Status::Found => 302,
            Status::SeeOther => 303,
            Status::NotModified => 304,
            Status::UseProxy => 305,
            Status::TemporaryRedirect => 307,
            Status::PermanentRedirect => 308,
            Status::BadRequest => 400,
            Status::Unauthorized => 401,
            Status::PaymentRequired => 402,
            Status::Forbidden => 403,
            Status::NotFound => 404,
            Status::MethodNotAllowed => 405,
            Status::NotAcceptable => 406,
            Status::ProxyAuthenticationRequired => 407,
            Status::RequestTimeout => 408,
            Status::Conflict => 409,
            Status::Gone => 410,
            Status::LengthRequired => 411,
            Status::PreconditionFailed => 412,
            Status::PayloadTooLarge => 413,
            Status::UriTooLong => 414,
            Status::UnsupportedMediaType => 415,
            Status::RangeNotSatisfiable => 416,
            Status::ExpectationFailed => 417,
            Status::ImATeapot => 418,
            Status::MisdirectedRequest => 421,
            Status::UnprocessableEntity => 422,
            Status::Locked => 423,
            Status::FailedDependency => 424,
            Status::TooEarly => 425,
            Status::UpgradeRequired => 426,
            Status::PreconditionRequired => 428,
            Status::TooManyRequests => 429,
            Status::RequestHeaderFieldsTooLarge => 431,
            Status::UnavailableForLegalReasons => 451,
            Status::InternalServerError => 500,
            Status::NotImplemented => 501,
            Status::BadGateway => 502,
            Status::ServiceUnavailable => 503,
            Status::GatewayTimeout => 504,
            Status::HttpVersionNotSupported => 505,
            Status::VariantAlsoNegotiates => 506,
            Status::InsufficientStorage => 507,
            Status::LoopDetected => 508,
            Status::NotExtended => 510,
            Status::NetworkAuthenticationRequired => 511,
        }
    }

    /// The canonical reason phrase of the status.
    pub open spec fn spec_reason(self) -> Seq<char> {
        match self {
            Status::Continue => "Continue"@,
            Status::SwitchingProtocols => "Switching Protocols"@,
            Status::Processing => "Processing"@,
            Status::OK => "OK"@,
            Status::Created => "Created"@,
            Status::Accepted => "Accepted"@,
            Status::NonAuthoritativeInformation => "Non-Authoritative Information"@,
            Status::NoContent => "No Content"@,
            Status::ResetContent => "Reset Content"@,
            Status::PartialContent => "Partial Content"@,
            Status::MultiStatus => "Multi-Status"@,
            Status::AlreadyReported => "Already Reported"@,
            Status::IMUsed => "IM Used"@,
            Status::MultipleChoices => "Multiple Choices"@,
            Status::MovedPermanently => "Moved Permanently"@,
            Status::Found => "Found"@,
            Status::SeeOther => "See Other"@,
            Status::NotModified => "Not Modified"@,
            Status::UseProxy => "Use Proxy"@,
            Status::TemporaryRedirect => "Temporary Redirect"@,
            Status::PermanentRedirect => "Permanent Redirect"@,
            Status::BadRequest => "Bad Request"@,
            Status::Unauthorized => "Unauthorized"@,
            Status::PaymentRequired => "Payment Required"@,
            Status::Forbidden => "Forbidden"@,
            Status::NotFound => "Not Found"@,
            Status::MethodNotAllowed => "Method Not Allowed"@,
            Status::NotAcceptable => "Not Acceptable"@,
            Status::ProxyAuthenticationRequired => "Proxy Authentication Required"@,
            Status::RequestTimeout => "Request Timeout"@,
            Status::Conflict => "Conflict"@,
            Status::Gone => "Gone"@,
            Status::LengthRequired => "Length Required"@,
            Status::PreconditionFailed => "Precondition Failed"@,
            Status::PayloadTooLarge => "Payload Too Large"@,
            Status::UriTooLong => "URI Too Long"@,
            Status::UnsupportedMediaType => "Unsupported Media Type"@,
            Status::RangeNotSatisfiable => "Range Not Satisfiable"@,
            Status::ExpectationFailed => "Expectation Failed"@,
            Status::ImATeapot => "I'm a teapot"@,
            Status::MisdirectedRequest => "Misdirected Request"@,
            Status::UnprocessableEntity => "Unprocessable Entity"@,
            Status::Locked => "Locked"@,
            Status::FailedDependency => "Failed Dependency"@,
            Status::TooEarly => "Too Early"@,
            Status::UpgradeRequired => "Upgrade Required"@,
            Status::PreconditionRequired => "Precondition Required"@,
            Status::TooManyRequests => "Too Many Requests"@,
            Status::RequestHeaderFieldsTooLarge => "Request Header Fields Too Large"@,
            Status::UnavailableForLegalReasons => "Unavailable For Legal Reasons"@,
            Status::InternalServerError => "Internal Server Error"@,
            Status::NotImplemented => "Not Implemented"@,
            Status::BadGateway => "Bad Gateway"@,
            Status::ServiceUnavailable => "Service Unavailable"@,
            Status::GatewayTimeout => "Gateway Timeout"@,
            Status::HttpVersionNotSupported => "HTTP Version Not Supported"@,
            Status::VariantAlsoNegotiates => "Variant Also Negotiates"@,
            Status::InsufficientStorage => "Insufficient Storage"@,
            Status::LoopDetected => "Loop Detected"@,
            Status::NotExtended => "Not Extended"@,
            Status::NetworkAuthenticationRequired => "Network Authentication Required"@,
        }
    }

    /// The decimal numeral of the status code, as written on the wire.
    pub open spec fn spec_code_chars(self) -> Seq<char> {
        spec_decimal(self.spec_code() as nat)
    }

    /// Returns the numeric code of the status.
    pub fn code(&self) -> (c: u16)
        ensures
            c == self.spec_code(),
    {
        match self {
            Status::Continue => 100,
            Status::SwitchingProtocols => 101,
            Status::Processing => 102,
            Status::OK => 200,
            Status::Created => 201,
            Status::Accepted => 202,
            Status::NonAuthoritativeInformation => 203,
            Status::NoContent => 204,
            Status::ResetContent => 205,
            Status::PartialContent => 206,
            Status::MultiStatus => 207,
            Status::AlreadyReported => 208,
            Status::IMUsed => 226,
            Status::MultipleChoices => 300,
            Status::MovedPermanently => 301,
            Status::Found => 302,
            Status::SeeOther => 303,
            Status::NotModified => 304,
            Status::UseProxy => 305,
            Status::TemporaryRedirect => 307,
            Status::PermanentRedirect => 308,
            Status::BadRequest => 400,
            Status::Unauthorized => 401,
            Status::PaymentRequired => 402,
            Status::Forbidden => 403,
            Status::NotFound => 404,
            Status::MethodNotAllowed => 405,
            Status::NotAcceptable => 406,
            Status::ProxyAuthenticationRequired => 407,
            Status::RequestTimeout => 408,
            Status::Conflict => 409,
            Status::Gone => 410,
            Status::LengthRequired => 411,
            Status::PreconditionFailed => 412,
            Status::PayloadTooLarge => 413,
            Status::UriTooLong => 414,
            Status::UnsupportedMediaType => 415,
            Status::RangeNotSatisfiable => 416,
            Status::ExpectationFailed => 417,
            Status::ImATeapot => 418,
            Status::MisdirectedRequest => 421,
            Status::UnprocessableEntity => 422,
            Status::Locked => 423,
            Status::FailedDependency => 424,
            Status::TooEarly => 425,
            Status::UpgradeRequired => 426,
            Status::PreconditionRequired => 428,
            Status::TooManyRequests => 429,
            Status::RequestHeaderFieldsTooLarge => 431,
            Status::UnavailableForLegalReasons => 451,
            Status::InternalServerError => 500,
            Status::NotImplemented => 501,
            Status::BadGateway => 502,
            Status::ServiceUnavailable => 503,
            Status::GatewayTimeout => 504,
            Status::HttpVersionNotSupported => 505,
            Status::VariantAlsoNegotiates => 506,
            Status::InsufficientStorage => 507,
            Status::LoopDetected => 508,
            Status::NotExtended => 510,
            Status::NetworkAuthenticationRequired => 511,
        }
    }

    /// Returns the canonical reason phrase of the status.
    pub fn reason(&self) -> (r: String)
        ensures
            r@ == self.spec_reason(),
    {
        match self {
            Status::Continue => "Continue".to_owned(),
            Status::SwitchingProtocols => "Switching Protocols".to_owned(),
            Status::Processing => "Processing".to_owned(),
            Status::OK => "OK".to_owned(),
            Status::Created => "Created".to_owned(),
            Status::Accepted => "Accepted".to_owned(),
            Status::NonAuthoritativeInformation => "Non-Authoritative Information".to_owned(),
            Status::NoContent => "No Content".to_owned(),
            Status::ResetContent => "Reset Content".to_owned(),
            Status::PartialContent => "Partial Content".to_owned(),
            Status::MultiStatus => "Multi-Status".to_owned(),
            Status::AlreadyReported => "Already Reported".to_owned(),
            Status::IMUsed => "IM Used".to_owned(),
            Status::MultipleChoices => "Multiple Choices".to_owned(),
            Status::MovedPermanently => "Moved Permanently".to_owned(),
            Status::Found => "Found".to_owned(),
            Status::SeeOther => "See Other".to_owned(),
            Status::NotModified => "Not Modified".to_owned(),
            Status::UseProxy => "Use Proxy".to_owned(),
            Status::TemporaryRedirect => "Temporary Redirect".to_owned(),
            Status::PermanentRedirect => "Permanent Redirect".to_owned(),
            Status::BadRequest => "Bad Request".to_owned(),
            Status::Unauthorized => "Unauthorized".to_owned(),
            Status::PaymentRequired => "Payment Required".to_owned(),
            Status::Forbidden => "Forbidden".to_owned(),
            Status::NotFound => "Not Found".to_owned(),
            Status::MethodNotAllowed => "Method Not Allowed".to_owned(),
            Status::NotAcceptable => "Not Acceptable".to_owned(),
            Status::ProxyAuthenticationRequired => "Proxy Authentication Required".to_owned(),
            Status::RequestTimeout => "Request Timeout".to_owned(),
            Status::Conflict => "Conflict".to_owned(),
            Status::Gone => "Gone".to_owned(),
            Status::LengthRequired => "Length Required".to_owned(),
            Status::PreconditionFailed => "Precondition Failed".to_owned(),
            Status::PayloadTooLarge => "Payload Too Large".to_owned(),
            Status::UriTooLong => "URI Too Long".to_owned(),
            Status::UnsupportedMediaType => "Unsupported Media Type".to_owned(),
            Status::RangeNotSatisfiable => "Range Not Satisfiable".to_owned(),
            Status::ExpectationFailed => "Expectation Failed".to_owned(),
            Status::ImATeapot => "I'm a teapot".to_owned(),
            Status::MisdirectedRequest => "Misdirected Request".to_owned(),
            Status::UnprocessableEntity => "Unprocessable Entity".to_owned(),
            Status::Locked => "Locked".to_owned(),
            Status::FailedDependency => "Failed Dependency".to_owned(),
            Status::TooEarly => "Too Early".to_owned(),
            Status::UpgradeRequired => "Upgrade Required".to_owned(),
            Status::PreconditionRequired => "Precondition Required".to_owned(),
            Status::TooManyRequests => "Too Many Requests".to_owned(),
            Status::RequestHeaderFieldsTooLarge => "Request Header Fields Too Large".to_owned(),
            Status::UnavailableForLegalReasons => "Unavailable For Legal Reasons".to_owned(),
            Status::InternalServerError => "Internal Server Error".to_owned(),
            Status::NotImplemented => "Not Implemented".to_owned(),
            Status::BadGateway => "Bad Gateway".to_owned(),
            Status::ServiceUnavailable => "Service Unavailable".to_owned(),
            Status::GatewayTimeout => "Gateway Timeout".to_owned(),
            Status::HttpVersionNotSupported => "HTTP Version Not Supported".to_owned(),
            Status::VariantAlsoNegotiates => "Variant Also Negotiates".to_owned(),
            Status::InsufficientStorage => "Insufficient Storage".to_owned(),
            Status::LoopDetected => "Loop Detected".to_owned(),
            Status::NotExtended => "Not Extended".to_owned(),
            Status::NetworkAuthenticationRequired => "Network Authentication Required".to_owned(),
        }
    }
}

} // verus!
