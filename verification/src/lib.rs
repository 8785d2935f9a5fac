//! A read-only JSON fixture API: a directory of `.json` files becomes a set
//! of servable resources, one endpoint per file stem.
//!
//! The crate holds the decision logic of such a server: building the resource
//! index from a directory listing, parsing request paths into routes, and
//! turning lookups and file contents into the exact responses owed to each
//! request. File and network transport stay with the caller, which hands in
//! plain values (directory entries, paths, file contents) and carries the
//! returned responses out.

pub mod dir_index;
pub mod json;
pub mod routing;
pub mod server;
pub mod text;
