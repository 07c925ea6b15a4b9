//! Verified core of a small GitOps tool that keeps a Caddy web server and a
//! Hugo site up to date: configuration model, Caddyfile generation, archive
//! selection, command-outcome checks, and the step machines that drive the
//! upgrade, deploy and sync operations.
pub mod text;
pub mod names;
pub mod error;
pub mod ops;
pub mod config;
pub mod cli;
pub mod archive;
pub mod plan;
pub mod laws;
