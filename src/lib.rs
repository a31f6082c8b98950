//! Short-link service core: code derivation, custom-code validation,
//! the create and redirect state machines, and per-client admission control.

pub mod config;
pub mod error;
pub mod link;
pub mod primitives;
pub mod rate_limit;
pub mod resolution;
pub mod shortener;
