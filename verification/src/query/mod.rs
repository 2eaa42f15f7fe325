//! The query pipeline: field lookup, `--where`, `--sort`, `--aggregate`, `--fields` and hour
//! windows over hourly weather points.
pub mod aggregate;
pub mod field_select;
pub mod fields;
pub mod predicate;
pub mod sort;
pub mod time_filter;
