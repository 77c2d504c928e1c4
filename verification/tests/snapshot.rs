use admin_control::errors::AdminServiceError;
use admin_control::replay::OnchainEventsRequest;
use admin_control::service::MyAdminService;
use admin_control::snapshot::{Config, MarkerProbe};
use admin_control::stores::{BlockStoreHandle, FarcasterNetwork, ShardStoreHandle,
    StatsdClientWrapper};

fn make_service(
    auth: &str,
) -> (MyAdminService, tokio::sync::mpsc::Receiver<OnchainEventsRequest>) {
    let (tx, rx) = tokio::sync::mpsc::channel(8);
    let service = MyAdminService::new(
        auth.to_string(),
        tx,
        vec![(1, ShardStoreHandle { store_id: 11 }), (2, ShardStoreHandle { store_id: 22 })],
        BlockStoreHandle { store_id: 7 },
        Config { backup_dir: "/tmp/admin-backup".to_string(), backup_bucket: "backups".to_string() },
        FarcasterNetwork::Mainnet,
        StatsdClientWrapper { client_id: 3 },
    );
    (service, rx)
}

#[test]
fn absent_marker_yields_a_faithful_job() {
    let (service, _rx) = make_service("a:1");
    let job = service.trigger_snapshot(MarkerProbe::Absent).unwrap();
    assert_eq!(job.snapshot_config.backup_dir, "/tmp/admin-backup");
    assert_eq!(job.snapshot_config.backup_bucket, "backups");
    assert_eq!(job.fc_network, FarcasterNetwork::Mainnet);
    assert_eq!(
        job.shard_stores,
        vec![(1, ShardStoreHandle { store_id: 11 }), (2, ShardStoreHandle { store_id: 22 })]
    );
    assert_eq!(job.block_store, BlockStoreHandle { store_id: 7 });
    assert_eq!(job.statsd_client, StatsdClientWrapper { client_id: 3 });
}

#[test]
fn present_marker_is_a_conflict() {
    let (service, _rx) = make_service("a:1");
    let r = service.trigger_snapshot(MarkerProbe::Present);
    assert_eq!(r.err(), Some(AdminServiceError::AlreadyInProgress));
}

#[test]
fn probe_failure_is_an_internal_error() {
    let (service, _rx) = make_service("a:1");
    let r = service.trigger_snapshot(MarkerProbe::Failed);
    assert_eq!(r.err(), Some(AdminServiceError::IoError));
}

#[test]
fn snapshot_trigger_is_gated_by_authentication() {
    let (service, _rx) = make_service("admin:hunter");
    assert!(service
        .allowed_users
        .authenticate(&String::from("admin"), &String::from("hunter"))
        .is_ok());
    assert_eq!(
        service
            .allowed_users
            .authenticate(&String::from("admin"), &String::from("wrong")),
        Err(AdminServiceError::Unauthenticated)
    );
}
