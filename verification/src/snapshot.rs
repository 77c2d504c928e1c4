//! Snapshot job configuration and the single-flight trigger decision.
//!
//! The presence of the configured backup directory on the local filesystem
//! is the marker of "a snapshot is currently running". The caller at the
//! boundary probes the filesystem and reports the outcome here; the
//! decision of whether a job may start, and with which resources, is made
//! and verified in this module.

use vstd::prelude::*;

use crate::stores::{BlockStoreHandle, FarcasterNetwork, ShardStoreHandle, StatsdClientWrapper};

verus! {

/// Immutable snapshot job configuration: where the backup is staged on
/// disk, and which backup target it is uploaded to.
pub struct Config {
    /// Local directory the job writes into; its presence is the
    /// snapshot-in-progress marker.
    pub backup_dir: String,
    /// Name of the remote backup target the job uploads to.
    pub backup_bucket: String,
}

impl Config {
    /// An identical copy of the configuration.
    pub fn duplicate(&self) -> (r: Config)
        ensures
            r == *self,
    {
        Config { backup_dir: self.backup_dir.clone(), backup_bucket: self.backup_bucket.clone() }
    }
}

/// What the filesystem probe of the backup destination reported.
#[derive(Clone, Copy, Debug, PartialEq, Eq, Structural)]
pub enum MarkerProbe {
    /// The backup destination does not exist: no snapshot is running.
    Absent,
    /// The backup destination exists: a snapshot is already in progress.
    Present,
    /// The probe itself failed with an I/O error.
    Failed,
}

/// Everything a background snapshot run needs, cloned out of the control
/// plane so the run owns its resources after the triggering call returns.
pub struct SnapshotJob {
    /// The snapshot configuration the job runs under.
    pub snapshot_config: Config,
    /// The network the node serves, recorded in the snapshot metadata.
    pub fc_network: FarcasterNetwork,
    /// Handles to every shard's store, keyed by shard identifier.
    pub shard_stores: Vec<(u32, ShardStoreHandle)>,
    /// Handle to the cross-shard block store.
    pub block_store: BlockStoreHandle,
    /// Handle to the metrics client the job reports through.
    pub statsd_client: StatsdClientWrapper,
}

} // verus!
