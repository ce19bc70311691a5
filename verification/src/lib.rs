//! Control-plane logic of a vault factory: it decides which execution unit
//! serves which actor, keeps the pool of shared units, throttles creation
//! requests and drives the multi-step provisioning of new units.

pub mod access;
pub mod error;
pub mod identity_map;
pub mod laws;
pub mod limiter;
pub mod orchestrator;
pub mod pool;
pub mod principal;
pub mod provision;
pub mod snapshot;
