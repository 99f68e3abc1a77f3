//! What every version of the protocol shares.

pub mod version;

pub use version::Version;
