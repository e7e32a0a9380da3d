//! Views of single sensors.

pub mod location;
pub mod sensors;
