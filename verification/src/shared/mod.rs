//! Shared domain types.
pub mod domain;
