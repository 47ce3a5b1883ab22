//! A registry of dynamically loaded parser libraries.
//!
//! The registry keeps one entry per library path and, inside each entry, one
//! binding per exported parser name. Loading a module, resolving a symbol and
//! running a parser are the caller's business: the registry is handed what
//! does them, consults it only when nothing is cached, and records the result.

pub mod binding;
pub mod entry;
pub mod error;
pub mod laws;
pub mod model;
pub mod path;
pub mod registry;
