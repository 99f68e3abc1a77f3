//! HTTP/1.1 responses.
//!
//! A response has a status code, and may have headers and a body. It is made
//! by a [`Builder`]: `Response::build` starts one, each configuration call
//! takes the builder and hands back the changed one, and `create` turns it
//! into the `Response`, which can only be read from then on.

use crate::headers::{header_lines, lemma_insert_last_wins, listing, with_content, Headers};
use crate::http::Version;
use crate::text::{decimal, decimal_text};
use vstd::prelude::*;
use vstd::string::*;
use vstd::utf8::*;

verus! {

/// The status codes.
#[derive(Debug, Copy, Clone, PartialEq, Eq, PartialOrd, Structural)]
#[non_exhaustive]
pub enum Code {
    // 1XX: informational
    Continue,
    SwitchingProtocols,
    Processing,
    EarlyHints,
    // 2XX: successful
    OK,
    Created,
    Accepted,
    NonAuthoritativeInformation,
    NoContent,
    ResetContent,
    PartialContent,
    MultiStatus,
    AlreadyReported,
    IMUsed,
    // 3XX: redirection
    MultipleChoices,
    MovedPermanently,
    Found,
    SeeOther,
    NotModified,
    TemporaryRedirect,
    PermanentRedirect,
    // 4XX: client error
    BadRequest,
    Unauthorized,
    PaymentRequired,
    Forbidden,
    NotFound,
    MethodNotAllowed,
    NotAcceptable,
    ProxyAuthenticationRequired,
    RequestTimeout,
    Conflict,
    Gone,
    LengthRequired,
    PreconditionFailed,
    ContentTooLarge,
    UriTooLong,
    UnsupportedMediaType,
    RangeNotSatisfiable,
    ExpectationFailed,
    ImATeapot,
    MisdirectedRequest,
    UnprocessableContent,
    Locked,
    FailedDependency,
    TooEarly,
    UpgradeRequired,
    PreconditionRequired,
    TooManyRequests,
    RequestHeaderFieldsTooLarge,
    UnavailableForLegalReasons,
    // 5XX: server error
    InternalServerError,
    NotImplemented,
    BadGateway,
    ServiceUnavailable,
    GatewayTimeout,
    HTTPVersionNotSupported,
    VariantAlsoNegotiates,
    InsufficientStorage,
    LoopDetected,
    NotExtended,
    NetworkAuthenticationRequired,
}

impl Code {
    /// The number of the status code.
    pub open spec fn value(self) -> nat {
        match self {
            Code::Continue => 100,
            Code::SwitchingProtocols => 101,
            Code::Processing => 102,
            Code::EarlyHints => 103,
            Code::OK => 200,
            Code::Created => 201,
            Code::Accepted => 202,
            Code::NonAuthoritativeInformation => 203,
            Code::NoContent => 204,
            Code::ResetContent => 205,
            Code::PartialContent => 206,
            Code::MultiStatus => 207,
            Code::AlreadyReported => 208,
            Code::IMUsed => 226,
            Code::MultipleChoices => 300,
            Code::MovedPermanently => 301,
            Code::Found => 302,
            Code::SeeOther => 303,
            Code::NotModified => 304,
            Code::TemporaryRedirect => 307,
            Code::PermanentRedirect => 308,
            Code::BadRequest => 400,
            Code::Unauthorized => 401,
            Code::PaymentRequired => 402,
            Code::Forbidden => 403,
            Code::NotFound => 404,
            Code::MethodNotAllowed => 405,
            Code::NotAcceptable => 406,
            Code::ProxyAuthenticationRequired => 407,
            Code::RequestTimeout => 408,
            Code::Conflict => 409,
            Code::Gone => 410,
            Code::LengthRequired => 411,
            Code::PreconditionFailed => 412,
            Code::ContentTooLarge => 413,
            Code::UriTooLong => 414,
            Code::UnsupportedMediaType => 415,
            Code::RangeNotSatisfiable => 416,
            Code::ExpectationFailed => 417,
            Code::ImATeapot => 418,
            Code::MisdirectedRequest => 421,
            Code::UnprocessableContent => 422,
            Code::Locked => 423,
            Code::FailedDependency => 424,
            Code::TooEarly => 425,
            Code::UpgradeRequired => 426,
            Code::PreconditionRequired => 428,
            Code::TooManyRequests => 429,
            Code::RequestHeaderFieldsTooLarge => 431,
            Code::UnavailableForLegalReasons => 451,
            Code::InternalServerError => 500,
            Code::NotImplemented => 501,
            Code::BadGateway => 502,
            Code::ServiceUnavailable => 503,
            Code::GatewayTimeout => 504,
            Code::HTTPVersionNotSupported => 505,
            Code::VariantAlsoNegotiates => 506,
            Code::InsufficientStorage => 507,
            Code::LoopDetected => 508,
            Code::NotExtended => 510,
            Code::NetworkAuthenticationRequired => 511,
        }
    }

    /// The reason phrase of the status code.
    pub open spec fn phrase(self) -> Seq<char> {
        match self {
            Code::Continue => "Continue"@,
            Code::SwitchingProtocols => "Switching Protocols"@,
            Code::Processing => "Processing"@,
            Code::EarlyHints => "Early Hints"@,
            Code::OK => "OK"@,
            Code::Created => "Created"@,
            Code::Accepted => "Accepted"@,
            Code::NonAuthoritativeInformation => "Non-Authoritative Information"@,
            Code::NoContent => "No Content"@,
            Code::ResetContent => "Reset Content"@,
            Code::PartialContent => "Partial Content"@,
            Code::MultiStatus => "Multi-Status"@,
            Code::AlreadyReported => "Already Reported"@,
            Code::IMUsed => "IM Used"@,
            Code::MultipleChoices => "Multiple Choices"@,
            Code::MovedPermanently => "Moved Permanently"@,
            Code::Found => "Found"@,
            Code::SeeOther => "See Other"@,
            Code::NotModified => "Not Modified"@,
            Code::TemporaryRedirect => "Temporary Redirect"@,
            Code::PermanentRedirect => "Permanent Redirect"@,
            Code::BadRequest => "Bad Request"@,
            Code::Unauthorized => "Unauthorized"@,
            Code::PaymentRequired => "Payment Required"@,
            Code::Forbidden => "Forbidden"@,
            Code::NotFound => "Not Found"@,
            Code::MethodNotAllowed => "Method Not Allowed"@,
            Code::NotAcceptable => "Not Acceptable"@,
            Code::ProxyAuthenticationRequired => "Proxy Authentication Required"@,
            Code::RequestTimeout => "Request Timeout"@,
            Code::Conflict => "Conflict"@,
            Code::Gone => "Gone"@,
            Code::LengthRequired => "Length Required"@,
            Code::PreconditionFailed => "Precondition Failed"@,
            Code::ContentTooLarge => "Content Too Large"@,
            Code::UriTooLong => "URI Too Long"@,
            Code::UnsupportedMediaType => "Unsupported Media Type"@,
            Code::RangeNotSatisfiable => "Range Not Satisfiable"@,
            Code::ExpectationFailed => "Expectation Failed"@,
            Code::ImATeapot => "I'm a teapot"@,
            Code::MisdirectedRequest => "Misdirected Request"@,
            Code::UnprocessableContent => "Unprocessable Content"@,
            Code::Locked => "Locked"@,
            Code::FailedDependency => "Failed Dependency"@,
            Code::TooEarly => "Too Early"@,
            Code::UpgradeRequired => "Upgrade Required"@,
            Code::PreconditionRequired => "Precondition Required"@,
            Code::TooManyRequests => "Too Many Requests"@,
            Code::RequestHeaderFieldsTooLarge => "Request Header Fields Too Large"@,
            Code::UnavailableForLegalReasons => "Unavailable For Legal Reasons"@,
            Code::InternalServerError => "Internal Server Error"@,
            Code::NotImplemented => "Not Implemented"@,
            Code::BadGateway => "Bad Gateway"@,
            Code::ServiceUnavailable => "Service Unavailable"@,
            Code::GatewayTimeout => "Gateway Timeout"@,
            Code::HTTPVersionNotSupported => "HTTP Version Not Supported"@,
            Code::VariantAlsoNegotiates => "Variant Also Negotiates"@,
            Code::InsufficientStorage => "Insufficient Storage"@,
            Code::LoopDetected => "Loop Detected"@,
            Code::NotExtended => "Not Extended"@,
            Code::NetworkAuthenticationRequired => "Network Authentication Required"@,
        }
    }

    /// The status on the wire: number, space, reason phrase.
    pub open spec fn text(self) -> Seq<char> {
        decimal(self.value()) + seq![' '] + self.phrase()
    }

    /// The number of the status code.
    pub fn numeric(&self) -> (n: u16)
        ensures
            n == self.value(),
            100 <= n <= 511,
    {
        match self {
            Code::Continue => 100,
            Code::SwitchingProtocols => 101,
            Code::Processing => 102,
            Code::EarlyHints => 103,
            Code::OK => 200,
            Code::Created => 201,
            Code::Accepted => 202,
            Code::NonAuthoritativeInformation => 203,
            Code::NoContent => 204,
            Code::ResetContent => 205,
            Code::PartialContent => 206,
            Code::MultiStatus => 207,
            Code::AlreadyReported => 208,
            Code::IMUsed => 226,
            Code::MultipleChoices => 300,
            Code::MovedPermanently => 301,
            Code::Found => 302,
            Code::SeeOther => 303,
            Code::NotModified => 304,
            Code::TemporaryRedirect => 307,
            Code::PermanentRedirect => 308,
            Code::BadRequest => 400,
            Code::Unauthorized => 401,
            Code::PaymentRequired => 402,
            Code::Forbidden => 403,
            Code::NotFound => 404,
            Code::MethodNotAllowed => 405,
            Code::NotAcceptable => 406,
            Code::ProxyAuthenticationRequired => 407,
            Code::RequestTimeout => 408,
            Code::Conflict => 409,
            Code::Gone => 410,
            Code::LengthRequired => 411,
            Code::PreconditionFailed => 412,
            Code::ContentTooLarge => 413,
            Code::UriTooLong => 414,
            Code::UnsupportedMediaType => 415,
            Code::RangeNotSatisfiable => 416,
            Code::ExpectationFailed => 417,
            Code::ImATeapot => 418,
            Code::MisdirectedRequest => 421,
            Code::UnprocessableContent => 422,
            Code::Locked => 423,
            Code::FailedDependency => 424,
            Code::TooEarly => 425,
            Code::UpgradeRequired => 426,
            Code::PreconditionRequired => 428,
            Code::TooManyRequests => 429,
            Code::RequestHeaderFieldsTooLarge => 431,
            Code::UnavailableForLegalReasons => 451,
            Code::InternalServerError => 500,
            Code::NotImplemented => 501,
            Code::BadGateway => 502,
            Code::ServiceUnavailable => 503,
            Code::GatewayTimeout => 504,
            Code::HTTPVersionNotSupported => 505,
            Code::VariantAlsoNegotiates => 506,
            Code::InsufficientStorage => 507,
            Code::LoopDetected => 508,
            Code::NotExtended => 510,
            Code::NetworkAuthenticationRequired => 511,
        }
    }

    /// The reason phrase of the status code.
    pub fn reason(&self) -> (r: &'static str)
        ensures
            r@ == self.phrase(),
    {
        match self {
            Code::Continue => "Continue",
            Code::SwitchingProtocols => "Switching Protocols",
            Code::Processing => "Processing",
            Code::EarlyHints => "Early Hints",
            Code::OK => "OK",
            Code::Created => "Created",
            Code::Accepted => "Accepted",
            Code::NonAuthoritativeInformation => "Non-Authoritative Information",
            Code::NoContent => "No Content",
            Code::ResetContent => "Reset Content",
            Code::PartialContent => "Partial Content",
            Code::MultiStatus => "Multi-Status",
            Code::AlreadyReported => "Already Reported",
            Code::IMUsed => "IM Used",
            Code::MultipleChoices => "Multiple Choices",
            Code::MovedPermanently => "Moved Permanently",
            Code::Found => "Found",
            Code::SeeOther => "See Other",
            Code::NotModified => "Not Modified",
            Code::TemporaryRedirect => "Temporary Redirect",
            Code::PermanentRedirect => "Permanent Redirect",
            Code::BadRequest => "Bad Request",
            Code::Unauthorized => "Unauthorized",
            Code::PaymentRequired => "Payment Required",
            Code::Forbidden => "Forbidden",
            Code::NotFound => "Not Found",
            Code::MethodNotAllowed => "Method Not Allowed",
            Code::NotAcceptable => "Not Acceptable",
            Code::ProxyAuthenticationRequired => "Proxy Authentication Required",
            Code::RequestTimeout => "Request Timeout",
            Code::Conflict => "Conflict",
            Code::Gone => "Gone",
            Code::LengthRequired => "Length Required",
            Code::PreconditionFailed => "Precondition Failed",
            Code::ContentTooLarge => "Content Too Large",
            Code::UriTooLong => "URI Too Long",
            Code::UnsupportedMediaType => "Unsupported Media Type",
            Code::RangeNotSatisfiable => "Range Not Satisfiable",
            Code::ExpectationFailed => "Expectation Failed",
            Code::ImATeapot => "I'm a teapot",
            Code::MisdirectedRequest => "Misdirected Request",
            Code::UnprocessableContent => "Unprocessable Content",
            Code::Locked => "Locked",
            Code::FailedDependency => "Failed Dependency",
            Code::TooEarly => "Too Early",
            Code::UpgradeRequired => "Upgrade Required",
            Code::PreconditionRequired => "Precondition Required",
            Code::TooManyRequests => "Too Many Requests",
            Code::RequestHeaderFieldsTooLarge => "Request Header Fields Too Large",
            Code::UnavailableForLegalReasons => "Unavailable For Legal Reasons",
            Code::InternalServerError => "Internal Server Error",
            Code::NotImplemented => "Not Implemented",
            Code::BadGateway => "Bad Gateway",
            Code::ServiceUnavailable => "Service Unavailable",
            Code::GatewayTimeout => "Gateway Timeout",
            Code::HTTPVersionNotSupported => "HTTP Version Not Supported",
            Code::VariantAlsoNegotiates => "Variant Also Negotiates",
            Code::InsufficientStorage => "Insufficient Storage",
            Code::LoopDetected => "Loop Detected",
            Code::NotExtended => "Not Extended",
            Code::NetworkAuthenticationRequired => "Network Authentication Required",
        }
    }

    /// Renders the status as number, space and reason phrase.
    pub fn to_text(&self) -> (r: String)
        ensures
            r@ == self.text(),
    {
        proof {
            reveal_strlit(" ");
        }
        let mut out = decimal_text(self.numeric() as usize);
        out.append(" ");
        out.append(self.reason());
        out
    }
}

/// What a response is: the value that a [`Builder`] accumulates and that a
/// [`Response`] holds.
pub struct ResponseView {
    pub code: Code,
    pub headers: Map<Seq<char>, Seq<char>>,
    pub body: Seq<char>,
}

impl ResponseView {
    /// A response with no headers and an empty body.
    pub open spec fn start(code: Code) -> ResponseView {
        ResponseView { code, headers: Map::empty(), body: Seq::empty() }
    }

    /// The same response with `body` in place of its body.
    pub open spec fn with_body(self, body: Seq<char>) -> ResponseView {
        ResponseView { body, ..self }
    }

    /// The same response with `value` stored under the header `key`.
    pub open spec fn with_header(self, key: Seq<char>, value: Seq<char>) -> ResponseView {
        ResponseView { headers: self.headers.insert(key, value), ..self }
    }

    /// The same response with `body` as its body, `media` as its
    /// `Content-Type` and the number of bytes of `body` as its
    /// `Content-Length`.
    pub open spec fn with_content(self, media: Seq<char>, body: Seq<char>) -> ResponseView {
        ResponseView { body, headers: with_content(self.headers, media, body), ..self }
    }

    /// The same response carrying `body` as HTML.
    pub open spec fn with_html(self, body: Seq<char>) -> ResponseView {
        self.with_content("text/html"@, body)
    }

    /// The same response carrying `body` as JSON.
    pub open spec fn with_json(self, body: Seq<char>) -> ResponseView {
        self.with_content("application/json"@, body)
    }

    /// The same response carrying `body` as a URL-encoded form.
    pub open spec fn with_url_encoded(self, body: Seq<char>) -> ResponseView {
        self.with_content("application/x-www-form-urlencoded"@, body)
    }

    /// The response on the wire: the status line, the headers by increasing
    /// name, an empty line, the body. Lines end in a single line feed.
    pub open spec fn wire_text(self) -> Seq<char> {
        Version::Http1_1.text() + seq![' '] + self.code.text() + seq!['\n'] + header_lines(
            listing(self.headers),
        ) + seq!['\n'] + self.body
    }
}

/// Setting a header twice under one name leaves the response that the second
/// call alone would have made: the value written last wins.
pub proof fn lemma_header_last_wins(
    b: ResponseView,
    key: Seq<char>,
    first: Seq<char>,
    last: Seq<char>,
)
    ensures
        b.with_header(key, first).with_header(key, last) == b.with_header(key, last),
        b.with_header(key, first).with_header(key, last).headers[key] == last,
{
    lemma_insert_last_wins(b.headers, key, first, last);
}

/// Setting the body and setting a header do not disturb each other: in
/// either order they make the same response.
pub proof fn lemma_body_header_commute(
    b: ResponseView,
    body: Seq<char>,
    key: Seq<char>,
    value: Seq<char>,
)
    ensures
        b.with_body(body).with_header(key, value) == b.with_header(key, value).with_body(body),
{
}

/// An HTML body is the body, the header `Content-Type: text/html` and the
/// header `Content-Length` with the number of bytes of the body in decimal,
/// set one after another.
pub proof fn lemma_html_unfolds(b: ResponseView, text: Seq<char>)
    ensures
        b.with_html(text) == b.with_body(text).with_header(
            "Content-Type"@,
            "text/html"@,
        ).with_header("Content-Length"@, decimal(encode_utf8(text).len())),
{
}

/// A JSON body is the body, the header `Content-Type: application/json` and
/// the header `Content-Length` with the number of bytes of the body in
/// decimal, set one after another.
pub proof fn lemma_json_unfolds(b: ResponseView, text: Seq<char>)
    ensures
        b.with_json(text) == b.with_body(text).with_header(
            "Content-Type"@,
            "application/json"@,
        ).with_header("Content-Length"@, decimal(encode_utf8(text).len())),
{
}

/// A URL-encoded body is the body, the header
/// `Content-Type: application/x-www-form-urlencoded` and the header
/// `Content-Length` with the number of bytes of the body in decimal, set one
/// after another.
pub proof fn lemma_url_encoded_unfolds(b: ResponseView, text: Seq<char>)
    ensures
        b.with_url_encoded(text) == b.with_body(text).with_header(
            "Content-Type"@,
            "application/x-www-form-urlencoded"@,
        ).with_header("Content-Length"@, decimal(encode_utf8(text).len())),
{
}

/// Accumulates the parts of a response.
#[derive(Debug, Eq)]
pub struct Builder {
    body: String,
    code: Code,
    headers: Headers,
}

impl View for Builder {
    type V = ResponseView;

    closed spec fn view(&self) -> ResponseView {
        ResponseView { code: self.code, headers: self.headers@, body: self.body@ }
    }
}

impl PartialEq for Builder {
    /// Whether the two hold the same parts.
    fn eq(&self, other: &Builder) -> (r: bool) {
        self.body == other.body
            && self.code == other.code
            && self.headers == other.headers
    }
}

impl vstd::std_specs::cmp::PartialEqSpecImpl for Builder {
    open spec fn obeys_eq_spec() -> bool {
        true
    }

    open spec fn eq_spec(&self, other: &Builder) -> bool {
        self@ == other@
    }
}

impl Clone for Builder {
    /// A second builder with the same parts.
    fn clone(&self) -> (r: Builder)
        ensures
            r@ == self@,
    {
        Builder { body: self.body.clone(), code: self.code, headers: self.headers.clone() }
    }
}

impl Builder {
    /// A builder for a response with no headers and an empty body.
    pub fn new(code: Code) -> (r: Builder)
        ensures
            r@ == ResponseView::start(code),
    {
        Builder { body: String::new(), code, headers: Headers::new() }
    }

    /// Sets the body, in place of any body set before.
    #[must_use]
    pub fn body(self, body: &str) -> (r: Builder)
        ensures
            r@ == self@.with_body(body@),
    {
        let mut r = self;
        r.body = String::from_str(body);
        r
    }

    /// Finishes the builder: the response that it has accumulated.
    #[must_use]
    pub fn create(self) -> (r: Response)
        ensures
            r@ == self@,
    {
        Response::new(self.code, self.headers, self.body)
    }

    /// Sets a header, in place of any value set for that name before.
    #[must_use]
    pub fn header(self, key: &str, value: &str) -> (r: Builder)
        ensures
            r@ == self@.with_header(key@, value@),
    {
        let mut r = self;
        r.headers.insert(String::from_str(key), String::from_str(value));
        r
    }

    /// Sets the body and the two headers that describe it: `media` as
    /// `Content-Type`, the number of bytes of the body as `Content-Length`.
    fn content(self, media: &str, body: &str) -> (r: Builder)
        ensures
            r@ == self@.with_content(media@, body@),
    {
        let length = decimal_text(body.as_bytes().len());
        self.body(body).header("Content-Type", media).header("Content-Length", length.as_str())
    }

    /// Sets an HTML body, with its `Content-Type` and `Content-Length`.
    #[must_use]
    pub fn html(self, body: &str) -> (r: Builder)
        ensures
            r@ == self@.with_html(body@),
    {
        self.content("text/html", body)
    }

    /// Sets a JSON body, with its `Content-Type` and `Content-Length`.
    #[must_use]
    pub fn json(self, body: &str) -> (r: Builder)
        ensures
            r@ == self@.with_json(body@),
    {
        self.content("application/json", body)
    }

    /// Sets a URL-encoded body, with its `Content-Type` and `Content-Length`.
    #[must_use]
    pub fn url_encoded(self, body: &str) -> (r: Builder)
        ensures
            r@ == self@.with_url_encoded(body@),
    {
        self.content("application/x-www-form-urlencoded", body)
    }
}

/// An HTTP/1.1 response. Once made it is only read.
#[derive(Debug, Eq)]
pub struct Response {
    body: String,
    code: Code,
    headers: Headers,
}

impl View for Response {
    type V = ResponseView;

    closed spec fn view(&self) -> ResponseView {
        ResponseView { code: self.code, headers: self.headers@, body: self.body@ }
    }
}

impl PartialEq for Response {
    /// Whether the two hold the same parts.
    fn eq(&self, other: &Response) -> (r: bool) {
        self.body == other.body
            && self.code == other.code
            && self.headers == other.headers
    }
}

impl vstd::std_specs::cmp::PartialEqSpecImpl for Response {
    open spec fn obeys_eq_spec() -> bool {
        true
    }

    open spec fn eq_spec(&self, other: &Response) -> bool {
        self@ == other@
    }
}

impl Clone for Response {
    /// A second response with the same parts.
    fn clone(&self) -> (r: Response)
        ensures
            r@ == self@,
    {
        Response { body: self.body.clone(), code: self.code, headers: self.headers.clone() }
    }
}

impl Response {
    /// The response made of the given parts.
    pub fn new(code: Code, headers: Headers, body: String) -> (r: Response)
        ensures
            r@ == (ResponseView { code, headers: headers@, body: body@ }),
    {
        Response { body, code, headers }
    }

    /// The body.
    #[must_use]
    pub fn body(&self) -> (r: &str)
        ensures
            r@ == self@.body,
    {
        self.body.as_str()
    }

    /// Starts a builder for a response with the given status code.
    #[must_use]
    pub fn build(code: Code) -> (r: Builder)
        ensures
            r@ == ResponseView::start(code),
    {
        Builder::new(code)
    }

    /// The status code.
    #[must_use]
    pub fn code(&self) -> (r: &Code)
        ensures
            *r == self@.code,
    {
        &self.code
    }

    /// The value of the header `key`, or `None` where the response has no
    /// such header. Names are compared as exact texts.
    #[must_use]
    pub fn header(&self, key: &str) -> (r: Option<&str>)
        ensures
            match r {
                Some(v) => self@.headers.contains_key(key@) && self@.headers[key@] == v@,
                None => !self@.headers.contains_key(key@),
            },
    {
        self.headers.get(key)
    }

    /// All the headers.
    #[must_use]
    pub fn headers(&self) -> (r: &Headers)
        ensures
            r@ == self@.headers,
    {
        &self.headers
    }

    /// Renders the response as it stands on the wire.
    pub fn to_text(&self) -> (r: String)
        ensures
            r@ == self@.wire_text(),
    {
        proof {
            reveal_strlit(" ");
            reveal_strlit("\n");
        }
        let mut out = Version::Http1_1.to_text();
        out.append(" ");
        out.append(self.code.to_text().as_str());
        out.append("\n");
        out.append(self.headers.to_text().as_str());
        out.append("\n");
        out.append(self.body.as_str());
        out
    }
}

} // verus!
