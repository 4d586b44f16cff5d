//! Answers whether a named artifact exists in a GitHub release, sparing the
//! rate-limited API: release URLs are taken apart, lookups are cached per
//! release, and the responses of the API are classified into a small set of
//! results that a caller can act on.

pub mod artifacts;
pub mod cells;
pub mod client;
pub mod gates;
pub mod percent;
pub mod release;
pub mod response;
pub mod template;
pub mod text;
pub mod time;
pub mod url_parts;
