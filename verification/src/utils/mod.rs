//! Leaf services: the clock, the password hasher and the token service.

pub mod clock;
pub mod hash;
pub mod jwt;
pub mod text;
