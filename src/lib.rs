//! Loading and resolving benchmark-run configurations.
//!
//! A configuration document is a JSON object whose fields are overlaid onto a
//! draft, optionally followed by a second overlay taken from a selected variant,
//! and then finalized into a [`config::Config`].

pub mod json;
pub mod env_map;
pub mod selector;
pub mod shell;
pub mod config;
pub mod laws;
