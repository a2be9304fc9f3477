//! The records the identity directory stores.

pub mod user;
