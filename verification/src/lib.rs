//! A command-driven, per-tenant shopping-list manager: raw chat messages are
//! parsed into commands and applied atomically to the tenant's own list.
//!
//! `parser` classifies message text, `store` owns the tenant-to-list mapping,
//! `executor` applies a parsed command to one tenant's list, and `render`
//! builds the user-visible text of a list.

pub mod executor;
pub mod laws;
pub mod parser;
pub mod render;
pub mod store;
