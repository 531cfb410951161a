//! Camellia: small utilities for application bootstrapping.
//!
//! The crate has two independent parts: resolution of the application
//! environment from an optional variable value with a build-mode fallback,
//! and layered configuration loading, which stacks a base file, an
//! environment-specific file and an environment-variable namespace onto a
//! hierarchical configuration builder in a fixed priority order.

pub mod config_ext;
pub mod env;
pub mod options;
pub mod text;
