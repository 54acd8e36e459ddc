pub mod condition;
pub mod config;
pub mod error;
pub mod types;
