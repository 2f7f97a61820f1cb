//! A real-time relay core: named channels accept text messages from
//! publishers and fan them out, best effort, to many concurrent
//! subscribers, with token-based access control, per-subscriber lag
//! accounting, and connection-lifecycle metrics.

pub mod adapters;
pub mod auth;
pub mod bus;
pub mod config;
pub mod delivery;
pub mod metrics;
pub mod registry;
