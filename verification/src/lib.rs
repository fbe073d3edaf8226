//! Resolves the components named in one request's query string into source
//! text and joins what was resolved into a single bundle, in request order.
//!
//! The crate holds the decisions only. Reading a file, fetching a URL and
//! waiting are left to the caller, who is told what to do next by
//! [`resolve::Resolution`] and hands back what came of it.

pub mod bundle;
pub mod cache;
pub mod fetch;
pub mod json;
pub mod load;
pub mod query;
pub mod resolve;
pub mod text;
pub mod transform;
