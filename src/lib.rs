//! Health aggregation for a workload-management platform: a threshold policy,
//! the probes that measure the platform, and the reduction of their readings
//! into one overall state.

pub mod percentage;
pub mod configuration;
pub mod error;
pub mod indicators;
pub mod health;
pub mod database;
pub mod system;
