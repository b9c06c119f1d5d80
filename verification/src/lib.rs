//! Core of a host activity-telemetry agent: a shared snapshot of the most
//! recent keyboard, pointer and window samples, updated atomically by
//! independent samplers and read as a consistent copy by an exporter.

pub mod math;
pub mod collection;
pub mod config;
pub mod laws;
pub mod store;
pub mod windows;
