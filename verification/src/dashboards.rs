//! The views behind the dashboards.

pub mod observatory;
pub mod weight;
