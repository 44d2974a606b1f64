//! Shared geometric capabilities: linear and diagonal sliding.

pub mod diagonal;
pub mod linear;
