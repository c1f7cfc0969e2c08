//! Client configuration.

pub mod model;
pub mod settings;
