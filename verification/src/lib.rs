//! Coordination primitives for a fleet of worker threads ("robots"): a
//! shutdown-aware FIFO task queue, an exclusive per-zone ownership table and
//! a heartbeat-based liveness monitor.
//!
//! Each primitive comes in two layers. The state type (`TaskQueueState`,
//! `ZoneOwnership`, `HealthState`) is a sequential state machine whose every
//! operation has an exact contract over a mathematical model. The shared type
//! (`TaskQueue`, `ZoneAccess`, `HealthMonitor`) guards one such state with a
//! mutex and runs exactly one state operation per critical section, so every
//! concurrent execution is some sequence of state operations; the laws proved
//! about arbitrary operation sequences therefore cover every interleaving.

pub mod args;
pub mod clock;
pub mod config;
pub mod coordination;
pub mod health_monitor;
pub mod metrics;
pub mod sync;
pub mod task_queue;
pub mod types;
pub mod zones;
