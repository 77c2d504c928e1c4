use admin_control::errors::AdminServiceError;
use admin_control::replay::{OnchainEventsRequest, RetryOnchainEventsKind};
use admin_control::service::MyAdminService;
use admin_control::snapshot::Config;
use admin_control::stores::{BlockStoreHandle, FarcasterNetwork, ShardStoreHandle,
    StatsdClientWrapper};

fn make_service(
    auth: &str,
) -> (MyAdminService, tokio::sync::mpsc::Receiver<OnchainEventsRequest>) {
    let (tx, rx) = tokio::sync::mpsc::channel(8);
    let service = MyAdminService::new(
        auth.to_string(),
        tx,
        vec![(1, ShardStoreHandle { store_id: 11 }), (2, ShardStoreHandle { store_id: 22 })],
        BlockStoreHandle { store_id: 7 },
        Config { backup_dir: "/tmp/admin-backup".to_string(), backup_bucket: "backups".to_string() },
        FarcasterNetwork::Mainnet,
        StatsdClientWrapper { client_id: 3 },
    );
    (service, rx)
}

#[test]
fn enabled_iff_credentials_nonempty() {
    assert!(make_service("a:1").0.enabled());
    assert!(make_service("a:1,b:2").0.enabled());
    assert!(!make_service("").0.enabled());
    assert!(!make_service("bad").0.enabled());
}

#[test]
fn replay_by_fid_is_forwarded_tagged() {
    let (service, mut rx) = make_service("a:1");
    service
        .retry_onchain_events(Some(RetryOnchainEventsKind::Fid(42)))
        .unwrap();
    assert_eq!(rx.blocking_recv(), Some(OnchainEventsRequest::RetryFid(42)));
}

#[test]
fn replay_by_block_range_is_forwarded_tagged() {
    let (service, mut rx) = make_service("a:1");
    service
        .retry_onchain_events(Some(RetryOnchainEventsKind::BlockRange {
            start_block_number: 100,
            stop_block_number: 200,
        }))
        .unwrap();
    assert_eq!(
        rx.blocking_recv(),
        Some(OnchainEventsRequest::RetryBlockRange {
            start_block_number: 100,
            stop_block_number: 200,
        })
    );
}

#[test]
fn replay_requests_arrive_in_issue_order() {
    let (service, mut rx) = make_service("a:1");
    service
        .retry_onchain_events(Some(RetryOnchainEventsKind::Fid(1)))
        .unwrap();
    service
        .retry_onchain_events(Some(RetryOnchainEventsKind::BlockRange {
            start_block_number: 2,
            stop_block_number: 3,
        }))
        .unwrap();
    assert_eq!(rx.blocking_recv(), Some(OnchainEventsRequest::RetryFid(1)));
    assert_eq!(
        rx.blocking_recv(),
        Some(OnchainEventsRequest::RetryBlockRange { start_block_number: 2, stop_block_number: 3 })
    );
}

#[test]
fn replay_fails_when_receiver_dropped() {
    let (service, rx) = make_service("a:1");
    drop(rx);
    assert_eq!(
        service.retry_onchain_events(Some(RetryOnchainEventsKind::Fid(5))),
        Err(AdminServiceError::ChannelClosed)
    );
}

#[test]
fn missing_kind_is_acknowledged_without_dispatch() {
    let (service, mut rx) = make_service("a:1");
    assert_eq!(service.retry_onchain_events(None), Ok(()));
    drop(service);
    assert_eq!(rx.blocking_recv(), None);
}
