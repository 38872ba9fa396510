//! Geodesy on an ellipsoid: an exact algebra of angles, the records that
//! state a problem and its solution, and the decisions that Vincenty's direct
//! and inverse solutions take around their numerical work.

pub mod earth;
pub mod geodesy;
pub mod units;
