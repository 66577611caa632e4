pub mod config;
pub mod scheduler;
