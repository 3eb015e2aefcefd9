//! Hierarchical configuration-profile resolution for a backup tool.
//!
//! The crate locates configuration documents for named profiles across
//! platform-dependent search locations, merges the referenced profiles
//! recursively with deterministic per-field precedence, and models the
//! external command hooks a configuration may carry.

pub mod command;
pub mod config;
pub mod envmap;
pub mod laws;
pub mod level;
pub mod paths;
pub mod resolve;
pub mod source;
pub mod strings;
