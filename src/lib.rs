//! Strict loading of the tool's configuration document into a validated
//! intermediate model.

pub mod node;
pub mod text;
pub mod yaml;
pub mod intermediate_config;
pub mod laws;
