//! HTTP/1.1 messages as immutable, builder-made values, and their wire text.
//!
//! A message is made by a builder. `build` on the message type starts one,
//! each configuration call takes the builder and hands back the changed one,
//! and `create` turns it into the message, which has no method that changes
//! it. Every builder and message has a view, a plain mathematical value, and
//! the contract of each function says what it does to that view.
//!
//! - [`headers`]: the header container, a mapping whose entries are listed by
//!   increasing name, and the theory of that listing.
//! - [`http1`]: requests and responses of HTTP/1.1, with their verbs and
//!   status codes.
//! - [`request`], [`response`]: the messages that name their protocol
//!   version.
//! - [`http`]: the protocol versions.
//! - [`text`]: the order of header names and decimal numerals.
//!
//! On the wire a line ends in a single line feed, and header names are told
//! apart as exact texts, upper and lower case included.

pub mod headers;
pub mod http;
pub mod http1;
pub mod request;
pub mod response;
pub mod text;

pub use request::Request;
pub use response::Response;
