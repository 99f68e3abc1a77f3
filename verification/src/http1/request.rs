//! HTTP/1.1 requests.
//!
//! A request has a verb and a target, and may have headers and a body. It is
//! made by a [`Builder`]: `Request::build` starts one, each configuration
//! call takes the builder and hands back the changed one, and `create` turns
//! it into the `Request`, which can only be read from then on.

use crate::headers::{header_lines, lemma_insert_last_wins, listing, with_content, Headers};
use crate::http::Version;
use crate::text::{decimal, decimal_text};
use vstd::prelude::*;
use vstd::string::*;
use vstd::utf8::*;

verus! {

/// The request methods.
#[derive(Debug, Copy, Clone, PartialEq, Eq, PartialOrd, Structural)]
#[non_exhaustive]
pub enum Verb {
    Connect,
    Delete,
    Get,
    Head,
    Options,
    Patch,
    Post,
    Put,
    Trace,
}

impl Verb {
    /// The method token on the wire: the name of the verb in upper case.
    pub open spec fn text(self) -> Seq<char> {
        match self {
            Verb::Connect => "CONNECT"@,
            Verb::Delete => "DELETE"@,
            Verb::Get => "GET"@,
            Verb::Head => "HEAD"@,
            Verb::Options => "OPTIONS"@,
            Verb::Patch => "PATCH"@,
            Verb::Post => "POST"@,
            Verb::Put => "PUT"@,
            Verb::Trace => "TRACE"@,
        }
    }

    /// Renders the verb as its method token.
    pub fn to_text(&self) -> (r: String)
        ensures
            r@ == self.text(),
    {
        String::from_str(
            match self {
                Verb::Connect => "CONNECT",
                Verb::Delete => "DELETE",
                Verb::Get => "GET",
                Verb::Head => "HEAD",
                Verb::Options => "OPTIONS",
                Verb::Patch => "PATCH",
                Verb::Post => "POST",
                Verb::Put => "PUT",
                Verb::Trace => "TRACE",
            },
        )
    }
}

/// What a request is: the value that a [`Builder`] accumulates and that a
/// [`Request`] holds.
pub struct RequestView {
    pub verb: Verb,
    pub target: Seq<char>,
    pub headers: Map<Seq<char>, Seq<char>>,
    pub body: Seq<char>,
}

impl RequestView {
    /// A request with no headers and an empty body.
    pub open spec fn start(verb: Verb, target: Seq<char>) -> RequestView {
        RequestView { verb, target, headers: Map::empty(), body: Seq::empty() }
    }

    /// The same request with `body` in place of its body.
    pub open spec fn with_body(self, body: Seq<char>) -> RequestView {
        RequestView { body, ..self }
    }

    /// The same request with `value` stored under the header `key`.
    pub open spec fn with_header(self, key: Seq<char>, value: Seq<char>) -> RequestView {
        RequestView { headers: self.headers.insert(key, value), ..self }
    }

    /// The same request with `body` as its body, `media` as its
    /// `Content-Type` and the number of bytes of `body` as its
    /// `Content-Length`.
    pub open spec fn with_content(self, media: Seq<char>, body: Seq<char>) -> RequestView {
        RequestView { body, headers: with_content(self.headers, media, body), ..self }
    }

    /// The same request carrying `body` as JSON.
    pub open spec fn with_json(self, body: Seq<char>) -> RequestView {
        self.with_content("application/json"@, body)
    }

    /// The same request carrying `body` as a URL-encoded form.
    pub open spec fn with_url_encoded(self, body: Seq<char>) -> RequestView {
        self.with_content("application/x-www-form-urlencoded"@, body)
    }

    /// The request on the wire: the request line, the headers by increasing
    /// name, an empty line, the body. Lines end in a single line feed.
    pub open spec fn wire_text(self) -> Seq<char> {
        self.verb.text() + seq![' '] + self.target + seq![' '] + Version::Http1_1.text() + seq![
            '\n',
        ] + header_lines(listing(self.headers)) + seq!['\n'] + self.body
    }
}

/// Setting a header twice under one name leaves the request that the second
/// call alone would have made: the value written last wins.
pub proof fn lemma_header_last_wins(
    b: RequestView,
    key: Seq<char>,
    first: Seq<char>,
    last: Seq<char>,
)
    ensures
        b.with_header(key, first).with_header(key, last) == b.with_header(key, last),
        b.with_header(key, first).with_header(key, last).headers[key] == last,
{
    lemma_insert_last_wins(b.headers, key, first, last);
}

/// Setting the body and setting a header do not disturb each other: in
/// either order they make the same request.
pub proof fn lemma_body_header_commute(
    b: RequestView,
    body: Seq<char>,
    key: Seq<char>,
    value: Seq<char>,
)
    ensures
        b.with_body(body).with_header(key, value) == b.with_header(key, value).with_body(body),
{
}

/// A JSON body is the body, the header `Content-Type: application/json` and
/// the header `Content-Length` with the number of bytes of the body in
/// decimal, set one after another.
pub proof fn lemma_json_unfolds(b: RequestView, text: Seq<char>)
    ensures
        b.with_json(text) == b.with_body(text).with_header(
            "Content-Type"@,
            "application/json"@,
        ).with_header("Content-Length"@, decimal(encode_utf8(text).len())),
{
}

/// A URL-encoded body is the body, the header
/// `Content-Type: application/x-www-form-urlencoded` and the header
/// `Content-Length` with the number of bytes of the body in decimal, set one
/// after another.
pub proof fn lemma_url_encoded_unfolds(b: RequestView, text: Seq<char>)
    ensures
        b.with_url_encoded(text) == b.with_body(text).with_header(
            "Content-Type"@,
            "application/x-www-form-urlencoded"@,
        ).with_header("Content-Length"@, decimal(encode_utf8(text).len())),
{
}

/// Accumulates the parts of a request.
#[derive(Debug, Eq)]
pub struct Builder {
    body: String,
    headers: Headers,
    target: String,
    verb: Verb,
}

impl View for Builder {
    type V = RequestView;

    closed spec fn view(&self) -> RequestView {
        RequestView {
            verb: self.verb,
            target: self.target@,
            headers: self.headers@,
            body: self.body@,
        }
    }
}

impl PartialEq for Builder {
    /// Whether the two hold the same parts.
    fn eq(&self, other: &Builder) -> (r: bool) {
        self.body == other.body
            && self.headers == other.headers
            && self.target == other.target
            && self.verb == other.verb
    }
}

impl vstd::std_specs::cmp::PartialEqSpecImpl for Builder {
    open spec fn obeys_eq_spec() -> bool {
        true
    }

    open spec fn eq_spec(&self, other: &Builder) -> bool {
        self@ == other@
    }
}

impl Clone for Builder {
    /// A second builder with the same parts.
    fn clone(&self) -> (r: Builder)
        ensures
            r@ == self@,
    {
        Builder {
            body: self.body.clone(),
            headers: self.headers.clone(),
            target: self.target.clone(),
            verb: self.verb,
        }
    }
}

impl Builder {
    /// A builder for a request with no headers and an empty body.
    pub fn new(verb: Verb, target: &str) -> (r: Builder)
        ensures
            r@ == RequestView::start(verb, target@),
    {
        Builder {
            body: String::new(),
            headers: Headers::new(),
            target: String::from_str(target),
            verb,
        }
    }

    /// Sets the body, in place of any body set before.
    #[must_use]
    pub fn body(self, body: &str) -> (r: Builder)
        ensures
            r@ == self@.with_body(body@),
    {
        let mut r = self;
        r.body = String::from_str(body);
        r
    }

    /// Finishes the builder: the request that it has accumulated.
    #[must_use]
    pub fn create(self) -> (r: Request)
        ensures
            r@ == self@,
    {
        Request::new(self.verb, self.target, self.headers, self.body)
    }

    /// Sets a header, in place of any value set for that name before.
    #[must_use]
    pub fn header(self, key: &str, value: &str) -> (r: Builder)
        ensures
            r@ == self@.with_header(key@, value@),
    {
        let mut r = self;
        r.headers.insert(String::from_str(key), String::from_str(value));
        r
    }

    /// Sets the body and the two headers that describe it: `media` as
    /// `Content-Type`, the number of bytes of the body as `Content-Length`.
    fn content(self, media: &str, body: &str) -> (r: Builder)
        ensures
            r@ == self@.with_content(media@, body@),
    {
        let length = decimal_text(body.as_bytes().len());
        self.body(body).header("Content-Type", media).header("Content-Length", length.as_str())
    }

    /// Sets a JSON body, with its `Content-Type` and `Content-Length`.
    #[must_use]
    pub fn json(self, body: &str) -> (r: Builder)
        ensures
            r@ == self@.with_json(body@),
    {
        self.content("application/json", body)
    }

    /// Sets a URL-encoded body, with its `Content-Type` and `Content-Length`.
    #[must_use]
    pub fn url_encoded(self, body: &str) -> (r: Builder)
        ensures
            r@ == self@.with_url_encoded(body@),
    {
        self.content("application/x-www-form-urlencoded", body)
    }
}

/// An HTTP/1.1 request. Once made it is only read.
#[derive(Debug, Eq)]
pub struct Request {
    body: String,
    headers: Headers,
    target: String,
    verb: Verb,
}

impl View for Request {
    type V = RequestView;

    closed spec fn view(&self) -> RequestView {
        RequestView {
            verb: self.verb,
            target: self.target@,
            headers: self.headers@,
            body: self.body@,
        }
    }
}

impl PartialEq for Request {
    /// Whether the two hold the same parts.
    fn eq(&self, other: &Request) -> (r: bool) {
        self.body == other.body
            && self.headers == other.headers
            && self.target == other.target
            && self.verb == other.verb
    }
}

impl vstd::std_specs::cmp::PartialEqSpecImpl for Request {
    open spec fn obeys_eq_spec() -> bool {
        true
    }

    open spec fn eq_spec(&self, other: &Request) -> bool {
        self@ == other@
    }
}

impl Clone for Request {
    /// A second request with the same parts.
    fn clone(&self) -> (r: Request)
        ensures
            r@ == self@,
    {
        Request {
            body: self.body.clone(),
            headers: self.headers.clone(),
            target: self.target.clone(),
            verb: self.verb,
        }
    }
}

impl Request {
    /// The request made of the given parts.
    pub fn new(verb: Verb, target: String, headers: Headers, body: String) -> (r: Request)
        ensures
            r@ == (RequestView { verb, target: target@, headers: headers@, body: body@ }),
    {
        Request { body, headers, target, verb }
    }

    /// The body.
    #[must_use]
    pub fn body(&self) -> (r: &str)
        ensures
            r@ == self@.body,
    {
        self.body.as_str()
    }

    /// Starts a builder for a request with the given verb and target.
    #[must_use]
    pub fn build(verb: Verb, target: &str) -> (r: Builder)
        ensures
            r@ == RequestView::start(verb, target@),
    {
        Builder::new(verb, target)
    }

    /// The value of the header `key`, or `None` where the request has no
    /// such header. Names are compared as exact texts.
    #[must_use]
    pub fn header(&self, key: &str) -> (r: Option<&str>)
        ensures
            match r {
                Some(v) => self@.headers.contains_key(key@) && self@.headers[key@] == v@,
                None => !self@.headers.contains_key(key@),
            },
    {
        self.headers.get(key)
    }

    /// All the headers.
    #[must_use]
    pub fn headers(&self) -> (r: &Headers)
        ensures
            r@ == self@.headers,
    {
        &self.headers
    }

    /// The target.
    #[must_use]
    pub fn target(&self) -> (r: &str)
        ensures
            r@ == self@.target,
    {
        self.target.as_str()
    }

    /// The verb.
    #[must_use]
    pub fn verb(&self) -> (r: &Verb)
        ensures
            *r == self@.verb,
    {
        &self.verb
    }

    /// Renders the request as it stands on the wire.
    pub fn to_text(&self) -> (r: String)
        ensures
            r@ == self@.wire_text(),
    {
        proof {
            reveal_strlit(" ");
            reveal_strlit("\n");
        }
        let mut out = self.verb.to_text();
        out.append(" ");
        out.append(self.target.as_str());
        out.append(" ");
        out.append(Version::Http1_1.to_text().as_str());
        out.append("\n");
        out.append(self.headers.to_text().as_str());
        out.append("\n");
        out.append(self.body.as_str());
        out
    }
}

} // verus!
