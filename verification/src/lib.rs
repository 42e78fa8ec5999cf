//! Lifecycle core of a tray resource monitor.
//!
//! The library holds the decision logic of the application: the coordinator
//! state machine that owns the background worker's lifecycle, the command
//! processing between the worker and the foreground loop, the worker's
//! polling step, the periodic refresh scheduler, and the configuration
//! model with its invariant. The host loop, the tray, the sampler and the
//! settings widgets are unverified collaborators that call into this crate
//! with plain values.

pub mod commands;
pub mod config;
pub mod coordinator;
pub mod language;
pub mod monitor_type;
pub mod sampling;
pub mod scheduler;
pub mod worker;
