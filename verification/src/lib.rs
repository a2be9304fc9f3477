//! Token lifecycle for an HTTP service: password hashing, signed bearer
//! tokens, refresh-token rotation against a stored "current token", and the
//! guard that decides whether a request may reach a protected handler.
//!
//! Everything here works on plain values. Reading the configuration, talking
//! to the identity directory and serving HTTP are left to the caller.

pub mod utils;
pub mod models;
pub mod handlers;
pub mod middleware;
pub mod rotation;
