//! A verified slash-command pipeline for an editor extension: a command
//! router, an argument-completion provider, a pure URL resolver, a fetch
//! adapter with a fixed request shape, and an output formatter that wraps
//! text in a labeled document.

pub mod error;
pub mod fetch;
pub mod output;
pub mod pypi;
pub mod registry;
pub mod text;
