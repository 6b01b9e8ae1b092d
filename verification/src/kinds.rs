//! The closed taxonomy of failure kinds: every way a request can fail is
//! one value of `ErrorKind`, carrying a stable identifier, a numeric code
//! and a human-readable message.

use vstd::prelude::*;

verus! {

/// One kind of failure. The client-internal categories and the JSON decode
/// categories come first; the rest mirror the standard HTTP status codes
/// that denote redirections, client errors and server errors.
#[derive(Clone, Copy, Debug, PartialEq, Eq, Structural)]
pub enum ErrorKind {
    UnknownError,
    InvalidUrl,
    GenericHttpClientError,
    ContentError,
    NetworkConnection,
    RequestError,
    JsonIoError,
    JsonSyntaxError,
    JsonDataError,
    JsonEof,
    MultipleChoices,
    MovedPermanently,
    Found,
    SeeOther,
    NotModified,
    UseProxy,
    TemporaryRedirect,
    PermanentRedirect,
    BadRequest,
    Unauthorized,
    PaymentRequired,
    Forbidden,
    NotFound,
    MethodNotAllowed,
    NotAcceptable,
    ProxyAuthenticationRequired,
    RequestTimeout,
    Conflict,
    Gone,
    LengthRequired,
    PreconditionFailed,
    PayloadTooLarge,
    UriTooLong,
    UnsupportedMediaType,
    RangeNotSatisfiable,
    ExpectationFailed,
    ImATeapot,
    MisdirectedRequest,
    UnprocessableEntity,
    Locked,
    FailedDependency,
    UpgradeRequired,
    PreconditionRequired,
    TooManyRequests,
    RequestHeaderFieldsTooLarge,
    UnavailableForLegalReasons,
    InternalServerError,
    NotImplemented,
    BadGateway,
    ServiceUnavailable,
    GatewayTimeout,
    HttpVersionNotSupported,
    VariantAlsoNegotiates,
    InsufficientStorage,
    LoopDetected,
    NotExtended,
    NetworkAuthenticationRequired,
}

impl ErrorKind {
    /// The numeric code of the kind: the HTTP status it mirrors, or a
    /// 400/500-class code for the client-internal and JSON categories.
    pub open spec fn code_spec(self) -> u16 {
        match self {
            ErrorKind::UnknownError => 500,
            ErrorKind::InvalidUrl => 400,
            ErrorKind::GenericHttpClientError => 500,
            ErrorKind::ContentError => 400,
            ErrorKind::NetworkConnection => 500,
            ErrorKind::RequestError => 500,
            ErrorKind::JsonIoError => 500,
            ErrorKind::JsonSyntaxError => 400,
            ErrorKind::JsonDataError => 400,
            ErrorKind::JsonEof => 500,
            ErrorKind::MultipleChoices => 300,
            ErrorKind::MovedPermanently => 301,
            ErrorKind::Found => 302,
            ErrorKind::SeeOther => 303,
            ErrorKind::NotModified => 304,
            ErrorKind::UseProxy => 305,
            ErrorKind::TemporaryRedirect => 307,
            ErrorKind::PermanentRedirect => 308,
            ErrorKind::BadRequest => 400,
            ErrorKind::Unauthorized => 401,
            ErrorKind::PaymentRequired => 402,
            ErrorKind::Forbidden => 403,
            ErrorKind::NotFound => 404,
            ErrorKind::MethodNotAllowed => 405,
            ErrorKind::NotAcceptable => 406,
            ErrorKind::ProxyAuthenticationRequired => 407,
            ErrorKind::RequestTimeout => 408,
            ErrorKind::Conflict => 409,
            ErrorKind::Gone => 410,
            ErrorKind::LengthRequired => 411,
            ErrorKind::PreconditionFailed => 412,
            ErrorKind::PayloadTooLarge => 413,
            ErrorKind::UriTooLong => 414,
            ErrorKind::UnsupportedMediaType => 415,
            ErrorKind::RangeNotSatisfiable => 416,
            ErrorKind::ExpectationFailed => 417,
            ErrorKind::ImATeapot => 418,
            ErrorKind::MisdirectedRequest => 421,
            ErrorKind::UnprocessableEntity => 422,
            ErrorKind::Locked => 423,
            ErrorKind::FailedDependency => 424,
            ErrorKind::UpgradeRequired => 426,
            ErrorKind::PreconditionRequired => 428,
            ErrorKind::TooManyRequests => 429,
            ErrorKind::RequestHeaderFieldsTooLarge => 431,
            ErrorKind::UnavailableForLegalReasons => 451,
            ErrorKind::InternalServerError => 500,
            ErrorKind::NotImplemented => 501,
            ErrorKind::BadGateway => 502,
            ErrorKind::ServiceUnavailable => 503,
            ErrorKind::GatewayTimeout => 504,
            ErrorKind::HttpVersionNotSupported => 505,
            ErrorKind::VariantAlsoNegotiates => 506,
            ErrorKind::InsufficientStorage => 507,
            ErrorKind::LoopDetected => 508,
            ErrorKind::NotExtended => 510,
            ErrorKind::NetworkAuthenticationRequired => 511,
        }
    }

    /// The stable identifier of the kind.
    pub open spec fn msgid_spec(self) -> Seq<char> {
        match self {
            ErrorKind::UnknownError => "Err-79483"@,
            ErrorKind::InvalidUrl => "Err-27071"@,
            ErrorKind::GenericHttpClientError => "Err-05192"@,
            ErrorKind::ContentError => "Err-45973"@,
            ErrorKind::NetworkConnection => "Err-64752"@,
            ErrorKind::RequestError => "Err-37984"@,
            ErrorKind::JsonIoError => "JSON-11553"@,
            ErrorKind::JsonSyntaxError => "JSON-57633"@,
            ErrorKind::JsonDataError => "JSON-15852"@,
            ErrorKind::JsonEof => "JSON-15853"@,
            ErrorKind::MultipleChoices => "Err-11298"@,
            ErrorKind::MovedPermanently => "Err-23108"@,
            ErrorKind::Found => "Err-07132"@,
            ErrorKind::SeeOther => "Err-16746"@,
            ErrorKind::NotModified => "Err-21556"@,
            ErrorKind::UseProxy => "Err-31839"@,
            ErrorKind::TemporaryRedirect => "Err-25446"@,
            ErrorKind::PermanentRedirect => "Err-12280"@,
            ErrorKind::BadRequest => "Err-26760"@,
            ErrorKind::Unauthorized => "Err-08059"@,
            ErrorKind::PaymentRequired => "Err-18076"@,
            ErrorKind::Forbidden => "Err-23134"@,
            ErrorKind::NotFound => "Err-18430"@,
            ErrorKind::MethodNotAllowed => "Err-23585"@,
            ErrorKind::NotAcceptable => "Err-04289"@,
            ErrorKind::ProxyAuthenticationRequired => "Err-17336"@,
            ErrorKind::RequestTimeout => "Err-00565"@,
            ErrorKind::Conflict => "Err-08442"@,
            ErrorKind::Gone => "Err-19916"@,
            ErrorKind::LengthRequired => "Err-09400"@,
            ErrorKind::PreconditionFailed => "Err-22509"@,
            ErrorKind::PayloadTooLarge => "Err-10591"@,
            ErrorKind::UriTooLong => "Err-01377"@,
            ErrorKind::UnsupportedMediaType => "Err-12512"@,
            ErrorKind::RangeNotSatisfiable => "Err-21696"@,
            ErrorKind::ExpectationFailed => "Err-16872"@,
            ErrorKind::ImATeapot => "Err-23719"@,
            ErrorKind::MisdirectedRequest => "Err-26981"@,
            ErrorKind::UnprocessableEntity => "Err-12568"@,
            ErrorKind::Locked => "Err-32695"@,
            ErrorKind::FailedDependency => "Err-19693"@,
            ErrorKind::UpgradeRequired => "Err-22991"@,
            ErrorKind::PreconditionRequired => "Err-02452"@,
            ErrorKind::TooManyRequests => "Err-12176"@,
            ErrorKind::RequestHeaderFieldsTooLarge => "Err-07756"@,
            ErrorKind::UnavailableForLegalReasons => "Err-12136"@,
            ErrorKind::InternalServerError => "Err-09069"@,
            ErrorKind::NotImplemented => "Err-03394"@,
            ErrorKind::BadGateway => "Err-19734"@,
            ErrorKind::ServiceUnavailable => "Err-18979"@,
            ErrorKind::GatewayTimeout => "Err-17595"@,
            ErrorKind::HttpVersionNotSupported => "Err-01625"@,
            ErrorKind::VariantAlsoNegotiates => "Err-28382"@,
            ErrorKind::InsufficientStorage => "Err-32132"@,
            ErrorKind::LoopDetected => "Err-30770"@,
            ErrorKind::NotExtended => "Err-19347"@,
            ErrorKind::NetworkAuthenticationRequired => "Err-31948"@,
        }
    }

    /// The human-readable description of the kind.
    pub open spec fn message_spec(self) -> Seq<char> {
        match self {
            ErrorKind::UnknownError => "Unexpected error"@,
            ErrorKind::InvalidUrl => "Invalid url"@,
            ErrorKind::GenericHttpClientError => "Generic HTTP client error"@,
            ErrorKind::ContentError => "The error is related to the request or response body"@,
            ErrorKind::NetworkConnection => "The error is related to connect"@,
            ErrorKind::RequestError => "The error is related to the request"@,
            ErrorKind::JsonIoError => "IO Error"@,
            ErrorKind::JsonSyntaxError => "Syntax Error"@,
            ErrorKind::JsonDataError => "Invalid JSON data"@,
            ErrorKind::JsonEof => "Reached the end of the input data"@,
            ErrorKind::MultipleChoices => "Multiple Choices"@,
            ErrorKind::MovedPermanently => "Moved Permanently"@,
            ErrorKind::Found => "Found"@,
            ErrorKind::SeeOther => "See Other"@,
            ErrorKind::NotModified => "Not Modified"@,
            ErrorKind::UseProxy => "Use Proxy"@,
            ErrorKind::TemporaryRedirect => "Temporary Redirect"@,
            ErrorKind::PermanentRedirect => "Permanent Redirect"@,
            ErrorKind::BadRequest => "Bad Request"@,
            ErrorKind::Unauthorized => "Unauthorized"@,
            ErrorKind::PaymentRequired => "Payment Required"@,
            ErrorKind::Forbidden => "Forbidden"@,
            ErrorKind::NotFound => "Not Found"@,
            ErrorKind::MethodNotAllowed => "Method Not Allowed"@,
            ErrorKind::NotAcceptable => "Not Acceptable"@,
            ErrorKind::ProxyAuthenticationRequired => "Proxy Authentication Required"@,
            ErrorKind::RequestTimeout => "Request Timeout"@,
            ErrorKind::Conflict => "Conflict"@,
            ErrorKind::Gone => "Gone"@,
            ErrorKind::LengthRequired => "Length Required"@,
            ErrorKind::PreconditionFailed => "Precondition Failed"@,
            ErrorKind::PayloadTooLarge => "Payload Too Large"@,
            ErrorKind::UriTooLong => "URI Too Long"@,
            ErrorKind::UnsupportedMediaType => "Unsupported Media Type"@,
            ErrorKind::RangeNotSatisfiable => "Range Not Satisfiable"@,
            ErrorKind::ExpectationFailed => "Expectation Failed"@,
            ErrorKind::ImATeapot => "I'm a teapot"@,
            ErrorKind::MisdirectedRequest => "Misdirected Request"@,
            ErrorKind::UnprocessableEntity => "Unprocessable Entity"@,
            ErrorKind::Locked => "Locked"@,
            ErrorKind::FailedDependency => "Failed Dependency"@,
            ErrorKind::UpgradeRequired => "Upgrade Required"@,
            ErrorKind::PreconditionRequired => "Precondition Required"@,
            ErrorKind::TooManyRequests => "Too Many Requests"@,
            ErrorKind::RequestHeaderFieldsTooLarge => "Request Header Fields Too Large"@,
            ErrorKind::UnavailableForLegalReasons => "Unavailable For Legal Reasons"@,
            ErrorKind::InternalServerError => "Internal Server Error"@,
            ErrorKind::NotImplemented => "Not Implemented"@,
            ErrorKind::BadGateway => "Bad Gateway"@,
            ErrorKind::ServiceUnavailable => "Service Unavailable"@,
            ErrorKind::GatewayTimeout => "Gateway Timeout"@,
            ErrorKind::HttpVersionNotSupported => "HTTP Version Not Supported"@,
            ErrorKind::VariantAlsoNegotiates => "Variant Also Negotiates"@,
            ErrorKind::InsufficientStorage => "Insufficient Storage"@,
            ErrorKind::LoopDetected => "Loop Detected"@,
            ErrorKind::NotExtended => "Not Extended"@,
            ErrorKind::NetworkAuthenticationRequired => "Network Authentication Required"@,
        }
    }

    pub fn code(&self) -> (r: u16)
        ensures
            r == self.code_spec(),
    {
        match self {
            ErrorKind::UnknownError => 500,
            ErrorKind::InvalidUrl => 400,
            ErrorKind::GenericHttpClientError => 500,
            ErrorKind::ContentError => 400,
            ErrorKind::NetworkConnection => 500,
            ErrorKind::RequestError => 500,
            ErrorKind::JsonIoError => 500,
            ErrorKind::JsonSyntaxError => 400,
            ErrorKind::JsonDataError => 400,
            ErrorKind::JsonEof => 500,
            ErrorKind::MultipleChoices => 300,
            ErrorKind::MovedPermanently => 301,
            ErrorKind::Found => 302,
            ErrorKind::SeeOther => 303,
            ErrorKind::NotModified => 304,
            ErrorKind::UseProxy => 305,
            ErrorKind::TemporaryRedirect => 307,
            ErrorKind::PermanentRedirect => 308,
            ErrorKind::BadRequest => 400,
            ErrorKind::Unauthorized => 401,
            ErrorKind::PaymentRequired => 402,
            ErrorKind::Forbidden => 403,
            ErrorKind::NotFound => 404,
            ErrorKind::MethodNotAllowed => 405,
            ErrorKind::NotAcceptable => 406,
            ErrorKind::ProxyAuthenticationRequired => 407,
            ErrorKind::RequestTimeout => 408,
            ErrorKind::Conflict => 409,
            ErrorKind::Gone => 410,
            ErrorKind::LengthRequired => 411,
            ErrorKind::PreconditionFailed => 412,
            ErrorKind::PayloadTooLarge => 413,
            ErrorKind::UriTooLong => 414,
            ErrorKind::UnsupportedMediaType => 415,
            ErrorKind::RangeNotSatisfiable => 416,
            ErrorKind::ExpectationFailed => 417,
            ErrorKind::ImATeapot => 418,
            ErrorKind::MisdirectedRequest => 421,
            ErrorKind::UnprocessableEntity => 422,
            ErrorKind::Locked => 423,
            ErrorKind::FailedDependency => 424,
            ErrorKind::UpgradeRequired => 426,
            ErrorKind::PreconditionRequired => 428,
            ErrorKind::TooManyRequests => 429,
            ErrorKind::RequestHeaderFieldsTooLarge => 431,
            ErrorKind::UnavailableForLegalReasons => 451,
            ErrorKind::InternalServerError => 500,
            ErrorKind::NotImplemented => 501,
            ErrorKind::BadGateway => 502,
            ErrorKind::ServiceUnavailable => 503,
            ErrorKind::GatewayTimeout => 504,
            ErrorKind::HttpVersionNotSupported => 505,
            ErrorKind::VariantAlsoNegotiates => 506,
            ErrorKind::InsufficientStorage => 507,
            ErrorKind::LoopDetected => 508,
            ErrorKind::NotExtended => 510,
            ErrorKind::NetworkAuthenticationRequired => 511,
        }
    }

    pub fn msgid(&self) -> (r: &'static str)
        ensures
            r@ == self.msgid_spec(),
    {
        match self {
            ErrorKind::UnknownError => "Err-79483",
            ErrorKind::InvalidUrl => "Err-27071",
            ErrorKind::GenericHttpClientError => "Err-05192",
            ErrorKind::ContentError => "Err-45973",
            ErrorKind::NetworkConnection => "Err-64752",
            ErrorKind::RequestError => "Err-37984",
            ErrorKind::JsonIoError => "JSON-11553",
            ErrorKind::JsonSyntaxError => "JSON-57633",
            ErrorKind::JsonDataError => "JSON-15852",
            ErrorKind::JsonEof => "JSON-15853",
            ErrorKind::MultipleChoices => "Err-11298",
            ErrorKind::MovedPermanently => "Err-23108",
            ErrorKind::Found => "Err-07132",
            ErrorKind::SeeOther => "Err-16746",
            ErrorKind::NotModified => "Err-21556",
            ErrorKind::UseProxy => "Err-31839",
            ErrorKind::TemporaryRedirect => "Err-25446",
            ErrorKind::PermanentRedirect => "Err-12280",
            ErrorKind::BadRequest => "Err-26760",
            ErrorKind::Unauthorized => "Err-08059",
            ErrorKind::PaymentRequired => "Err-18076",
            ErrorKind::Forbidden => "Err-23134",
            ErrorKind::NotFound => "Err-18430",
            ErrorKind::MethodNotAllowed => "Err-23585",
            ErrorKind::NotAcceptable => "Err-04289",
            ErrorKind::ProxyAuthenticationRequired => "Err-17336",
            ErrorKind::RequestTimeout => "Err-00565",
            ErrorKind::Conflict => "Err-08442",
            ErrorKind::Gone => "Err-19916",
            ErrorKind::LengthRequired => "Err-09400",
            ErrorKind::PreconditionFailed => "Err-22509",
            ErrorKind::PayloadTooLarge => "Err-10591",
            ErrorKind::UriTooLong => "Err-01377",
            ErrorKind::UnsupportedMediaType => "Err-12512",
            ErrorKind::RangeNotSatisfiable => "Err-21696",
            ErrorKind::ExpectationFailed => "Err-16872",
            ErrorKind::ImATeapot => "Err-23719",
            ErrorKind::MisdirectedRequest => "Err-26981",
            ErrorKind::UnprocessableEntity => "Err-12568",
            ErrorKind::Locked => "Err-32695",
            ErrorKind::FailedDependency => "Err-19693",
            ErrorKind::UpgradeRequired => "Err-22991",
            ErrorKind::PreconditionRequired => "Err-02452",
            ErrorKind::TooManyRequests => "Err-12176",
            ErrorKind::RequestHeaderFieldsTooLarge => "Err-07756",
            ErrorKind::UnavailableForLegalReasons => "Err-12136",
            ErrorKind::InternalServerError => "Err-09069",
            ErrorKind::NotImplemented => "Err-03394",
            ErrorKind::BadGateway => "Err-19734",
            ErrorKind::ServiceUnavailable => "Err-18979",
            ErrorKind::GatewayTimeout => "Err-17595",
            ErrorKind::HttpVersionNotSupported => "Err-01625",
            ErrorKind::VariantAlsoNegotiates => "Err-28382",
            ErrorKind::InsufficientStorage => "Err-32132",
            ErrorKind::LoopDetected => "Err-30770",
            ErrorKind::NotExtended => "Err-19347",
            ErrorKind::NetworkAuthenticationRequired => "Err-31948",
        }
    }

    pub fn message(&self) -> (r: &'static str)
        ensures
            r@ == self.message_spec(),
    {
        match self {
            ErrorKind::UnknownError => "Unexpected error",
            ErrorKind::InvalidUrl => "Invalid url",
            ErrorKind::GenericHttpClientError => "Generic HTTP client error",
            ErrorKind::ContentError => "The error is related to the request or response body",
            ErrorKind::NetworkConnection => "The error is related to connect",
            ErrorKind::RequestError => "The error is related to the request",
            ErrorKind::JsonIoError => "IO Error",
            ErrorKind::JsonSyntaxError => "Syntax Error",
            ErrorKind::JsonDataError => "Invalid JSON data",
            ErrorKind::JsonEof => "Reached the end of the input data",
            ErrorKind::MultipleChoices => "Multiple Choices",
            ErrorKind::MovedPermanently => "Moved Permanently",
            ErrorKind::Found => "Found",
            ErrorKind::SeeOther => "See Other",
            ErrorKind::NotModified => "Not Modified",
            ErrorKind::UseProxy => "Use Proxy",
            ErrorKind::TemporaryRedirect => "Temporary Redirect",
            ErrorKind::PermanentRedirect => "Permanent Redirect",
            ErrorKind::BadRequest => "Bad Request",
            ErrorKind::Unauthorized => "Unauthorized",
            ErrorKind::PaymentRequired => "Payment Required",
            ErrorKind::Forbidden => "Forbidden",
            ErrorKind::NotFound => "Not Found",
            ErrorKind::MethodNotAllowed => "Method Not Allowed",
            ErrorKind::NotAcceptable => "Not Acceptable",
            ErrorKind::ProxyAuthenticationRequired => "Proxy Authentication Required",
            ErrorKind::RequestTimeout => "Request Timeout",
            ErrorKind::Conflict => "Conflict",
            ErrorKind::Gone => "Gone",
            ErrorKind::LengthRequired => "Length Required",
            ErrorKind::PreconditionFailed => "Precondition Failed",
            ErrorKind::PayloadTooLarge => "Payload Too Large",
            ErrorKind::UriTooLong => "URI Too Long",
            ErrorKind::UnsupportedMediaType => "Unsupported Media Type",
            ErrorKind::RangeNotSatisfiable => "Range Not Satisfiable",
            ErrorKind::ExpectationFailed => "Expectation Failed",
            ErrorKind::ImATeapot => "I'm a teapot",
            ErrorKind::MisdirectedRequest => "Misdirected Request",
            ErrorKind::UnprocessableEntity => "Unprocessable Entity",
            ErrorKind::Locked => "Locked",
            ErrorKind::FailedDependency => "Failed Dependency",
            ErrorKind::UpgradeRequired => "Upgrade Required",
            ErrorKind::PreconditionRequired => "Precondition Required",
            ErrorKind::TooManyRequests => "Too Many Requests",
            ErrorKind::RequestHeaderFieldsTooLarge => "Request Header Fields Too Large",
            ErrorKind::UnavailableForLegalReasons => "Unavailable For Legal Reasons",
            ErrorKind::InternalServerError => "Internal Server Error",
            ErrorKind::NotImplemented => "Not Implemented",
            ErrorKind::BadGateway => "Bad Gateway",
            ErrorKind::ServiceUnavailable => "Service Unavailable",
            ErrorKind::GatewayTimeout => "Gateway Timeout",
            ErrorKind::HttpVersionNotSupported => "HTTP Version Not Supported",
            ErrorKind::VariantAlsoNegotiates => "Variant Also Negotiates",
            ErrorKind::InsufficientStorage => "Insufficient Storage",
            ErrorKind::LoopDetected => "Loop Detected",
            ErrorKind::NotExtended => "Not Extended",
            ErrorKind::NetworkAuthenticationRequired => "Network Authentication Required",
        }
    }
}

/// The status codes that the taxonomy maps to a kind of their own.
pub open spec fn status_kind_spec(status: u16) -> Option<ErrorKind> {
    match status {
        300 => Some(ErrorKind::MultipleChoices),
        301 => Some(ErrorKind::MovedPermanently),
        302 => Some(ErrorKind::Found),
        303 => Some(ErrorKind::SeeOther),
        304 => Some(ErrorKind::NotModified),
        305 => Some(ErrorKind::UseProxy),
        307 => Some(ErrorKind::TemporaryRedirect),
        308 => Some(ErrorKind::PermanentRedirect),
        400 => Some(ErrorKind::BadRequest),
        401 => Some(ErrorKind::Unauthorized),
        402 => Some(ErrorKind::PaymentRequired),
        403 => Some(ErrorKind::Forbidden),
        404 => Some(ErrorKind::NotFound),
        405 => Some(ErrorKind::MethodNotAllowed),
        406 => Some(ErrorKind::NotAcceptable),
        407 => Some(ErrorKind::ProxyAuthenticationRequired),
        408 => Some(ErrorKind::RequestTimeout),
        409 => Some(ErrorKind::Conflict),
        410 => Some(ErrorKind::Gone),
        411 => Some(ErrorKind::LengthRequired),
        412 => Some(ErrorKind::PreconditionFailed),
        413 => Some(ErrorKind::PayloadTooLarge),
        414 => Some(ErrorKind::UriTooLong),
        415 => Some(ErrorKind::UnsupportedMediaType),
        416 => Some(ErrorKind::RangeNotSatisfiable),
        417 => Some(ErrorKind::ExpectationFailed),
        418 => Some(ErrorKind::ImATeapot),
        421 => Some(ErrorKind::MisdirectedRequest),
        422 => Some(ErrorKind::UnprocessableEntity),
        423 => Some(ErrorKind::Locked),
        424 => Some(ErrorKind::FailedDependency),
        426 => Some(ErrorKind::UpgradeRequired),
        428 => Some(ErrorKind::PreconditionRequired),
        429 => Some(ErrorKind::TooManyRequests),
        431 => Some(ErrorKind::RequestHeaderFieldsTooLarge),
        451 => Some(ErrorKind::UnavailableForLegalReasons),
        500 => Some(ErrorKind::InternalServerError),
        501 => Some(ErrorKind::NotImplemented),
        502 => Some(ErrorKind::BadGateway),
        503 => Some(ErrorKind::ServiceUnavailable),
        504 => Some(ErrorKind::GatewayTimeout),
        505 => Some(ErrorKind::HttpVersionNotSupported),
        506 => Some(ErrorKind::VariantAlsoNegotiates),
        507 => Some(ErrorKind::InsufficientStorage),
        508 => Some(ErrorKind::LoopDetected),
        510 => Some(ErrorKind::NotExtended),
        511 => Some(ErrorKind::NetworkAuthenticationRequired),
        _ => None,
    }
}

/// Maps an HTTP status code to its kind, or `None` where the taxonomy has
/// no kind for that code.
pub fn try_from_status(status: u16) -> (r: Option<ErrorKind>)
    ensures
        r == status_kind_spec(status),
{
    match status {
        300 => Some(ErrorKind::MultipleChoices),
        301 => Some(ErrorKind::MovedPermanently),
        302 => Some(ErrorKind::Found),
        303 => Some(ErrorKind::SeeOther),
        304 => Some(ErrorKind::NotModified),
        305 => Some(ErrorKind::UseProxy),
        307 => Some(ErrorKind::TemporaryRedirect),
        308 => Some(ErrorKind::PermanentRedirect),
        400 => Some(ErrorKind::BadRequest),
        401 => Some(ErrorKind::Unauthorized),
        402 => Some(ErrorKind::PaymentRequired),
        403 => Some(ErrorKind::Forbidden),
        404 => Some(ErrorKind::NotFound),
        405 => Some(ErrorKind::MethodNotAllowed),
        406 => Some(ErrorKind::NotAcceptable),
        407 => Some(ErrorKind::ProxyAuthenticationRequired),
        408 => Some(ErrorKind::RequestTimeout),
        409 => Some(ErrorKind::Conflict),
        410 => Some(ErrorKind::Gone),
        411 => Some(ErrorKind::LengthRequired),
        412 => Some(ErrorKind::PreconditionFailed),
        413 => Some(ErrorKind::PayloadTooLarge),
        414 => Some(ErrorKind::UriTooLong),
        415 => Some(ErrorKind::UnsupportedMediaType),
        416 => Some(ErrorKind::RangeNotSatisfiable),
        417 => Some(ErrorKind::ExpectationFailed),
        418 => Some(ErrorKind::ImATeapot),
        421 => Some(ErrorKind::MisdirectedRequest),
        422 => Some(ErrorKind::UnprocessableEntity),
        423 => Some(ErrorKind::Locked),
        424 => Some(ErrorKind::FailedDependency),
        426 => Some(ErrorKind::UpgradeRequired),
        428 => Some(ErrorKind::PreconditionRequired),
        429 => Some(ErrorKind::TooManyRequests),
        431 => Some(ErrorKind::RequestHeaderFieldsTooLarge),
        451 => Some(ErrorKind::UnavailableForLegalReasons),
        500 => Some(ErrorKind::InternalServerError),
        501 => Some(ErrorKind::NotImplemented),
        502 => Some(ErrorKind::BadGateway),
        503 => Some(ErrorKind::ServiceUnavailable),
        504 => Some(ErrorKind::GatewayTimeout),
        505 => Some(ErrorKind::HttpVersionNotSupported),
        506 => Some(ErrorKind::VariantAlsoNegotiates),
        507 => Some(ErrorKind::InsufficientStorage),
        508 => Some(ErrorKind::LoopDetected),
        510 => Some(ErrorKind::NotExtended),
        511 => Some(ErrorKind::NetworkAuthenticationRequired),
        _ => None,
    }
}

/// The namespace of the HTTP status-code kinds.
pub struct HttpStatusCodeErrors;

impl HttpStatusCodeErrors {
    /// Maps a failing HTTP status code to its kind. A caller must hold a
    /// status that the taxonomy maps; an unmapped status is a contract
    /// violation of the caller.
    pub fn from_status(status: u16) -> (r: ErrorKind)
        requires
            status_kind_spec(status) is Some,
        ensures
            Some(r) == status_kind_spec(status),
    {
        match try_from_status(status) {
            Some(kind) => kind,
            None => ErrorKind::UnknownError,
        }
    }
}

} // verus!
