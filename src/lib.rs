//! Access to the published AI pricing document of an environment: the
//! document's data model, the address it is published at, and the single-slot
//! cache that is filled at most once while bypass fetches leave it untouched.

pub mod model;
pub mod url;
pub mod cache;
pub mod laws;
