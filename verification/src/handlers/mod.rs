//! The decisions behind each HTTP endpoint, on plain values.

pub mod auth;
pub mod reply;
