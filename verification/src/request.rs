//! Requests that name their protocol version.
//!
//! A request has a verb, a target and a version, and may have headers and a
//! body. It is made by a [`Builder`]: `Request::build` starts one, each
//! configuration call takes the builder and hands back the changed one, and
//! `create` turns it into the `Request`, which can only be read from then on.

use crate::headers::{header_lines, lemma_insert_last_wins, listing, Headers};
use vstd::prelude::*;
use vstd::string::*;

pub use crate::http::Version;
pub use crate::http1::Verb;

verus! {

/// What a request is: the value that a [`Builder`] accumulates and that a
/// [`Request`] holds.
pub struct RequestView {
    pub verb: Verb,
    pub target: Seq<char>,
    pub version: Version,
    pub headers: Map<Seq<char>, Seq<char>>,
    pub body: Seq<char>,
}

impl RequestView {
    /// A request with no headers and an empty body.
    pub open spec fn start(verb: Verb, target: Seq<char>, version: Version) -> RequestView {
        RequestView { verb, target, version, headers: Map::empty(), body: Seq::empty() }
    }

    /// The same request with `body` in place of its body.
    pub open spec fn with_body(self, body: Seq<char>) -> RequestView {
        RequestView { body, ..self }
    }

    /// The same request with `value` stored under the header `key`.
    pub open spec fn with_header(self, key: Seq<char>, value: Seq<char>) -> RequestView {
        RequestView { headers: self.headers.insert(key, value), ..self }
    }

    /// The request on the wire: the request line, the headers by increasing
    /// name, an empty line, the body. Lines end in a single line feed.
    pub open spec fn wire_text(self) -> Seq<char> {
        self.verb.text() + seq![' '] + self.target + seq![' '] + self.version.text() + seq!['\n']
            + header_lines(listing(self.headers)) + seq!['\n'] + self.body
    }
}

/// Setting a header twice under one name leaves the request that the second
/// call alone would have made: the value written last wins.
pub proof fn lemma_header_last_wins(
    b: RequestView,
    key: Seq<char>,
    first: Seq<char>,
    last: Seq<char>,
)
    ensures
        b.with_header(key, first).with_header(key, last) == b.with_header(key, last),
        b.with_header(key, first).with_header(key, last).headers[key] == last,
{
    lemma_insert_last_wins(b.headers, key, first, last);
}

/// Accumulates the parts of a request.
#[derive(Debug, Eq)]
pub struct Builder {
    body: String,
    headers: Headers,
    target: String,
    verb: Verb,
    version: Version,
}

impl View for Builder {
    type V = RequestView;

    closed spec fn view(&self) -> RequestView {
        RequestView {
            verb: self.verb,
            target: self.target@,
            version: self.version,
            headers: self.headers@,
            body: self.body@,
        }
    }
}

impl PartialEq for Builder {
    /// Whether the two hold the same parts.
    fn eq(&self, other: &Builder) -> (r: bool) {
        self.body == other.body
            && self.headers == other.headers
            && self.target == other.target
            && self.verb == other.verb
            && self.version == other.version
    }
}

impl vstd::std_specs::cmp::PartialEqSpecImpl for Builder {
    open spec fn obeys_eq_spec() -> bool {
        true
    }

    open spec fn eq_spec(&self, other: &Builder) -> bool {
        self@ == other@
    }
}

impl Clone for Builder {
    /// A second builder with the same parts.
    fn clone(&self) -> (r: Builder)
        ensures
            r@ == self@,
    {
        Builder {
            body: self.body.clone(),
            headers: self.headers.clone(),
            target: self.target.clone(),
            verb: self.verb,
            version: self.version,
        }
    }
}

impl Builder {
    /// A builder for a request with no headers and an empty body.
    pub fn new(verb: Verb, target: &str, version: Version) -> (r: Builder)
        ensures
            r@ == RequestView::start(verb, target@, version),
    {
        Builder {
            body: String::new(),
            headers: Headers::new(),
            target: String::from_str(target),
            verb,
            version,
        }
    }

    /// Sets the body, in place of any body set before.
    #[must_use]
    pub fn body(self, body: &str) -> (r: Builder)
        ensures
            r@ == self@.with_body(body@),
    {
        let mut r = self;
        r.body = String::from_str(body);
        r
    }

    /// Finishes the builder: the request that it has accumulated.
    #[must_use]
    pub fn create(self) -> (r: Request)
        ensures
            r@ == self@,
    {
        Request::new(self.verb, self.target, self.version, self.headers, self.body)
    }

    /// Sets a header, in place of any value set for that name before.
    #[must_use]
    pub fn header(self, key: &str, value: &str) -> (r: Builder)
        ensures
            r@ == self@.with_header(key@, value@),
    {
        let mut r = self;
        r.headers.insert(String::from_str(key), String::from_str(value));
        r
    }
}

/// A request that names its protocol version. Once made it is only read.
#[derive(Debug, Eq)]
pub struct Request {
    body: String,
    headers: Headers,
    target: String,
    verb: Verb,
    version: Version,
}

impl View for Request {
    type V = RequestView;

    closed spec fn view(&self) -> RequestView {
        RequestView {
            verb: self.verb,
            target: self.target@,
            version: self.version,
            headers: self.headers@,
            body: self.body@,
        }
    }
}

impl PartialEq for Request {
    /// Whether the two hold the same parts.
    fn eq(&self, other: &Request) -> (r: bool) {
        self.body == other.body
            && self.headers == other.headers
            && self.target == other.target
            && self.verb == other.verb
            && self.version == other.version
    }
}

impl vstd::std_specs::cmp::PartialEqSpecImpl for Request {
    open spec fn obeys_eq_spec() -> bool {
        true
    }

    open spec fn eq_spec(&self, other: &Request) -> bool {
        self@ == other@
    }
}

impl Clone for Request {
    /// A second request with the same parts.
    fn clone(&self) -> (r: Request)
        ensures
            r@ == self@,
    {
        Request {
            body: self.body.clone(),
            headers: self.headers.clone(),
            target: self.target.clone(),
            verb: self.verb,
            version: self.version,
        }
    }
}

impl Request {
    /// The request made of the given parts.
    pub fn new(
        verb: Verb,
        target: String,
        version: Version,
        headers: Headers,
        body: String,
    ) -> (r: Request)
        ensures
            r@ == (RequestView { verb, target: target@, version, headers: headers@, body: body@ }),
    {
        Request { body, headers, target, verb, version }
    }

    /// Starts a builder for a request with the given verb, target and
    /// version.
    #[must_use]
    pub fn build(verb: Verb, target: &str, version: Version) -> (r: Builder)
        ensures
            r@ == RequestView::start(verb, target@, version),
    {
        Builder::new(verb, target, version)
    }

    /// The body.
    #[must_use]
    pub fn body(&self) -> (r: &str)
        ensures
            r@ == self@.body,
    {
        self.body.as_str()
    }

    /// The value of the header `key`, or `None` where the request has no
    /// such header. Names are compared as exact texts.
    #[must_use]
    pub fn header(&self, key: &str) -> (r: Option<&str>)
        ensures
            match r {
                Some(v) => self@.headers.contains_key(key@) && self@.headers[key@] == v@,
                None => !self@.headers.contains_key(key@),
            },
    {
        self.headers.get(key)
    }

    /// All the headers.
    #[must_use]
    pub fn headers(&self) -> (r: &Headers)
        ensures
            r@ == self@.headers,
    {
        &self.headers
    }

    /// The target.
    #[must_use]
    pub fn target(&self) -> (r: &str)
        ensures
            r@ == self@.target,
    {
        self.target.as_str()
    }

    /// The verb.
    #[must_use]
    pub fn verb(&self) -> (r: &Verb)
        ensures
            *r == self@.verb,
    {
        &self.verb
    }

    /// The version.
    #[must_use]
    pub fn version(&self) -> (r: &Version)
        ensures
            *r == self@.version,
    {
        &self.version
    }

    /// Renders the request as it stands on the wire.
    pub fn to_text(&self) -> (r: String)
        ensures
            r@ == self@.wire_text(),
    {
        proof {
            reveal_strlit(" ");
            reveal_strlit("\n");
        }
        let mut out = self.verb.to_text();
        out.append(" ");
        out.append(self.target.as_str());
        out.append(" ");
        out.append(self.version.to_text().as_str());
        out.append("\n");
        out.append(self.headers.to_text().as_str());
        out.append("\n");
        out.append(self.body.as_str());
        out
    }
}

} // verus!
