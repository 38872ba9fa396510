//! The figure of the earth.

pub mod ellipsoid;
