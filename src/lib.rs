//! Two-tier configuration resolution: a base TOML table and an optional
//! environment-specific overlay, with type-checked lookup of scalar keys.

pub mod builder;
pub mod config;
pub mod error;
pub mod paths;
pub mod table;
pub mod value;
