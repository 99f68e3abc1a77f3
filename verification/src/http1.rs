//! HTTP/1.1 messages: requests and responses, their builders, and the texts
//! that stand for them on the wire.

pub mod request;
pub mod response;

pub use request::Request;
pub use request::Verb;
pub use response::Code;
pub use response::Response;
