//! Application configuration.
pub mod config;
