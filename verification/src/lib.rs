//! Read-only metadata service core for a package registry and its
//! documentation host.
//!
//! The crate holds the verified logic of the service: the line-oriented
//! request dispatcher and its tool registry, the backing-client facade
//! (search, detail, version history, dependency lookup) with the mirror
//! availability state machine, the documentation-client logic, and the
//! rendering of every response to its wire text. Network transport and
//! process plumbing live outside the library and hand it plain values.

pub mod dispatch;
pub mod docs;
pub mod errors;
pub mod facade;
pub mod jsonout;
pub mod mirror;
pub mod registry;
pub mod text;
pub mod types;
