//! Health checks for HTTP endpoints whose requests may depend on the
//! response of another endpoint: field extraction, placeholder
//! substitution, outcome classification and per-endpoint scheduling.

pub mod app;
pub mod config;
pub mod email;
pub mod health;
pub mod json;
pub mod schedule;
pub mod substitute;
pub mod text;

