//! Administrative control plane for a multi-shard ledger node.
//!
//! The library coordinates two privileged operations: triggering a
//! point-in-time snapshot of every shard store, and requesting replay of
//! previously seen on-chain events. Request authentication, mutual
//! exclusion for snapshot jobs, and routing of replay requests are the
//! verified core; transport and filesystem probing live at the boundary.

pub mod auth;
pub mod errors;
pub mod replay;
pub mod service;
pub mod snapshot;
pub mod stores;
