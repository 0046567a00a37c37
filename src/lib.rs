//! Telemetry sampling for a flight simulator plugin: which power state counts
//! as "on", when a sample is due, and how the plugin's lifecycle gates the
//! periodic tick.

pub mod power;
pub mod scheduler;
pub mod error;
pub mod lifecycle;
