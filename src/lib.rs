pub mod config;
pub mod decimal;
pub mod metrics;
pub mod monitor;
