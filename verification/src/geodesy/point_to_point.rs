//! From one point to another.

pub mod vincenty;
