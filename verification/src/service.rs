//! The admin control plane façade: composes the authentication gate, the
//! replay dispatcher and the snapshot coordinator behind the two admin
//! operations.

use vstd::prelude::*;

use crate::auth::{credentials_of, Credentials};
use crate::errors::AdminServiceError;
use crate::replay::{dispatch, onchain_request_of, OnchainEventsRequest, RetryOnchainEventsKind};
use crate::snapshot::{Config, MarkerProbe, SnapshotJob};
use crate::stores::{copy_registry, BlockStoreHandle, FarcasterNetwork, ShardStoreHandle,
    StatsdClientWrapper};

verus! {

/// The admin service: the credential gate, the channel to the on-chain
/// event ingestion worker, and the resources a snapshot run needs.
pub struct MyAdminService {
    /// Identifier/secret pairs of the administrators allowed to call
    /// privileged operations; empty when the surface is disabled.
    pub allowed_users: Credentials,
    /// Sending half of the bounded channel to the ingestion worker.
    pub onchain_events_request_tx: tokio::sync::mpsc::Sender<OnchainEventsRequest>,
    /// Immutable snapshot job configuration.
    pub snapshot_config: Config,
    /// Handles to every shard's store, keyed by shard identifier.
    pub shard_stores: Vec<(u32, ShardStoreHandle)>,
    /// Handle to the cross-shard block store.
    pub block_store: BlockStoreHandle,
    /// The network the node serves.
    pub fc_network: FarcasterNetwork,
    /// Handle to the metrics client.
    pub statsd_client: StatsdClientWrapper,
}

impl MyAdminService {
    /// Builds the service: parses the credential configuration string once
    /// and records the resources later snapshot runs will clone.
    pub fn new(
        rpc_auth: String,
        onchain_events_request_tx: tokio::sync::mpsc::Sender<OnchainEventsRequest>,
        shard_stores: Vec<(u32, ShardStoreHandle)>,
        block_store: BlockStoreHandle,
        snapshot_config: Config,
        fc_network: FarcasterNetwork,
        statsd_client: StatsdClientWrapper,
    ) -> (s: Self)
        ensures
            s.allowed_users@ == credentials_of(rpc_auth@),
            s.shard_stores == shard_stores,
            s.block_store == block_store,
            s.snapshot_config == snapshot_config,
            s.fc_network == fc_network,
            s.statsd_client == statsd_client,
    {
        let allowed_users = Credentials::parse(rpc_auth.as_str());
        MyAdminService {
            allowed_users,
            onchain_events_request_tx,
            snapshot_config,
            shard_stores,
            block_store,
            fc_network,
            statsd_client,
        }
    }

    /// Whether this control plane is active: false exactly when no
    /// administrator credentials are configured, the mechanism by which the
    /// whole surface is turned off.
    pub fn enabled(&self) -> (r: bool)
        ensures
            r <==> self.allowed_users@ != Map::<Seq<char>, Seq<char>>::empty(),
    {
        !self.allowed_users.is_empty()
    }

    /// Routes one inbound replay call: a missing payload is acknowledged
    /// without further processing, a tagged payload is forwarded to the
    /// ingestion worker unchanged. Fails exactly when the worker's
    /// receiving half is gone.
    pub fn retry_onchain_events(&self, kind: Option<RetryOnchainEventsKind>) -> (r: Result<
        (),
        AdminServiceError,
    >)
        ensures
            kind is None ==> r is Ok,
            r is Err ==> r->Err_0 == AdminServiceError::ChannelClosed,
    {
        match kind {
            None => Ok(()),
            Some(k) => {
                let request = onchain_request_of(&k);
                dispatch(&self.onchain_events_request_tx, request)
            },
        }
    }

    /// The snapshot trigger decision: given what the filesystem probe of
    /// the backup destination reported, either refuse — a conflict when a
    /// snapshot is already in progress, an internal error when the probe
    /// itself failed — or hand back a job owning faithful copies of the
    /// current configuration and store handles, ready to be spawned.
    pub fn trigger_snapshot(&self, marker: MarkerProbe) -> (r: Result<
        SnapshotJob,
        AdminServiceError,
    >)
        ensures
            r is Ok <==> marker is Absent,
            marker is Present ==> r->Err_0 == AdminServiceError::AlreadyInProgress,
            marker is Failed ==> r->Err_0 == AdminServiceError::IoError,
            r is Ok ==> {
                let job = r->Ok_0;
                &&& job.snapshot_config == self.snapshot_config
                &&& job.fc_network == self.fc_network
                &&& job.shard_stores@ == self.shard_stores@
                &&& job.block_store == self.block_store
                &&& job.statsd_client == self.statsd_client
            },
    {
        match marker {
            MarkerProbe::Present => Err(AdminServiceError::AlreadyInProgress),
            MarkerProbe::Failed => Err(AdminServiceError::IoError),
            MarkerProbe::Absent => Ok(
                SnapshotJob {
                    snapshot_config: self.snapshot_config.duplicate(),
                    fc_network: self.fc_network,
                    shard_stores: copy_registry(&self.shard_stores),
                    block_store: self.block_store,
                    statsd_client: self.statsd_client,
                },
            ),
        }
    }
}

} // verus!
