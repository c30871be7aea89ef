//! Feature collections of an OpenStreetMap export, read from JSON text.

pub mod decode;
pub mod error;
pub mod feature_collection;
pub mod json;
pub mod laws;
pub mod model;
