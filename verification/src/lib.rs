pub mod cache_keys;
pub mod cli;
pub mod dashboard;
pub mod dates;
pub mod geocoding;
pub mod orchestrator;
pub mod output;
pub mod text;
pub mod query;
pub mod providers;
pub mod shared;
