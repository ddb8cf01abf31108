//! A registry of book records curated by a single administrator.
//!
//! Records live in a keyed store at addresses derived from a namespace tag
//! and, for books, the ISBN. Every mutation checks the caller against the
//! administrator recorded in the singleton configuration record and keeps
//! each text field within its fixed capacity.

pub mod address;
pub mod records;
pub mod registry;
pub mod book;
pub mod laws;
