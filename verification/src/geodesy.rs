//! Points, problems and solutions, and the steps of the solutions.

pub mod latlng;
pub mod point_to_point;
pub mod problems;
pub mod vincenty;
pub mod published;
