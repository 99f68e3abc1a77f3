//! The protocol versions that a message can name.

use vstd::prelude::*;
use vstd::string::*;

verus! {

/// A version of the protocol, as named in the first line of a message.
#[derive(Debug, Copy, Clone, PartialEq, Eq, PartialOrd, Structural)]
#[non_exhaustive]
pub enum Version {
    Http1_1,
}

impl Version {
    /// The token that names the version on the wire.
    pub open spec fn text(self) -> Seq<char> {
        match self {
            Version::Http1_1 => "HTTP/1.1"@,
        }
    }

    /// Renders the version as its wire token.
    pub fn to_text(&self) -> (r: String)
        ensures
            r@ == self.text(),
    {
        match self {
            Version::Http1_1 => String::from_str("HTTP/1.1"),
        }
    }
}

} // verus!
