//! Responses that name their protocol version.
//!
//! Such a response holds its version and nothing else. It is made by a
//! [`Builder`]: `Response::build` starts one and `create` turns it into the
//! `Response`, which can only be read from then on.

use vstd::prelude::*;

pub use crate::http::Version;

verus! {

/// Accumulates the parts of a response.
#[derive(Debug, Eq)]
pub struct Builder {
    version: Version,
}

impl View for Builder {
    type V = Version;

    closed spec fn view(&self) -> Version {
        self.version
    }
}

impl PartialEq for Builder {
    /// Whether the two hold the same parts.
    fn eq(&self, other: &Builder) -> (r: bool) {
        self.version == other.version
    }
}

impl vstd::std_specs::cmp::PartialEqSpecImpl for Builder {
    open spec fn obeys_eq_spec() -> bool {
        true
    }

    open spec fn eq_spec(&self, other: &Builder) -> bool {
        self@ == other@
    }
}

impl Clone for Builder {
    /// A second builder of the same version.
    fn clone(&self) -> (r: Builder)
        ensures
            r@ == self@,
    {
        Builder { version: self.version }
    }
}

impl Builder {
    /// A builder for a response of the given version.
    pub fn new(version: Version) -> (r: Builder)
        ensures
            r@ == version,
    {
        Builder { version }
    }

    /// Finishes the builder: the response that it has accumulated.
    #[must_use]
    pub fn create(self) -> (r: Response)
        ensures
            r@ == self@,
    {
        Response::new(self.version)
    }
}

/// A response that names its protocol version. Once made it is only read.
#[derive(Debug, Eq)]
pub struct Response {
    version: Version,
}

impl View for Response {
    type V = Version;

    closed spec fn view(&self) -> Version {
        self.version
    }
}

impl PartialEq for Response {
    /// Whether the two hold the same parts.
    fn eq(&self, other: &Response) -> (r: bool) {
        self.version == other.version
    }
}

impl vstd::std_specs::cmp::PartialEqSpecImpl for Response {
    open spec fn obeys_eq_spec() -> bool {
        true
    }

    open spec fn eq_spec(&self, other: &Response) -> bool {
        self@ == other@
    }
}

impl Clone for Response {
    /// A second response of the same version.
    fn clone(&self) -> (r: Response)
        ensures
            r@ == self@,
    {
        Response { version: self.version }
    }
}

impl Response {
    /// The response of the given version.
    pub fn new(version: Version) -> (r: Response)
        ensures
            r@ == version,
    {
        Response { version }
    }

    /// Starts a builder for a response of the given version.
    #[must_use]
    pub fn build(version: Version) -> (r: Builder)
        ensures
            r@ == version,
    {
        Builder::new(version)
    }

    /// The version.
    #[must_use]
    pub fn version(&self) -> (r: &Version)
        ensures
            *r == self@,
    {
        &self.version
    }
}

} // verus!
