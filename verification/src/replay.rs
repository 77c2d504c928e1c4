//! Replay dispatch: routing of admin replay requests to the on-chain event
//! ingestion worker over a bounded channel.
//!
//! The worker owns the receiving half; the control plane only forwards
//! correctly tagged requests and surfaces a closed channel to the caller.
//! The channel itself is tokio's bounded mpsc channel, taken on trust
//! through the declarations below.

use vstd::prelude::*;

use crate::errors::AdminServiceError;

verus! {

/// A replay request as the ingestion worker consumes it: either all events
/// of one identity, or all events in an inclusive block-number range.
#[derive(Clone, Copy, Debug, PartialEq, Eq, Structural)]
pub enum OnchainEventsRequest {
    /// Replay every event of the identity with this numeric identifier.
    RetryFid(u64),
    /// Replay every event in a block-number range.
    RetryBlockRange { start_block_number: u64, stop_block_number: u64 },
}

/// The tagged payload of an inbound admin replay call.
#[derive(Clone, Copy, Debug, PartialEq, Eq, Structural)]
pub enum RetryOnchainEventsKind {
    /// Replay by numeric identity.
    Fid(u64),
    /// Replay by block-number range.
    BlockRange { start_block_number: u64, stop_block_number: u64 },
}

/// The worker request an inbound replay call maps to: the same tag, the
/// same numeric fields.
pub open spec fn request_of(kind: RetryOnchainEventsKind) -> OnchainEventsRequest {
    match kind {
        RetryOnchainEventsKind::Fid(fid) => OnchainEventsRequest::RetryFid(fid),
        RetryOnchainEventsKind::BlockRange { start_block_number, stop_block_number } => {
            OnchainEventsRequest::RetryBlockRange { start_block_number, stop_block_number }
        },
    }
}

/// Builds the worker request for an inbound replay call.
pub fn onchain_request_of(kind: &RetryOnchainEventsKind) -> (r: OnchainEventsRequest)
    ensures
        r == request_of(*kind),
{
    match kind {
        RetryOnchainEventsKind::Fid(fid) => OnchainEventsRequest::RetryFid(*fid),
        RetryOnchainEventsKind::BlockRange { start_block_number, stop_block_number } => {
            OnchainEventsRequest::RetryBlockRange {
                start_block_number: *start_block_number,
                stop_block_number: *stop_block_number,
            }
        },
    }
}

/// Declares tokio::sync::mpsc::Sender so the control plane can hold the
/// sending half of the worker channel; the library never looks inside it.
#[verifier::external_type_specification]
#[verifier::external_body]
#[verifier::reject_recursive_types(T)]
pub struct ExSender<T>(tokio::sync::mpsc::Sender<T>);

/// Relies on tokio::sync::mpsc::Sender::blocking_send: the value is handed
/// to the channel unchanged and in call order, the call waits while the
/// channel is full, and when the receiver is gone the value comes back
/// inside the error. Must be called from outside an asynchronous runtime.
#[verifier::external_body]
fn send_onchain_request(
    tx: &tokio::sync::mpsc::Sender<OnchainEventsRequest>,
    request: OnchainEventsRequest,
) -> (r: Result<(), OnchainEventsRequest>)
    ensures
        r matches Err(e) ==> e == request,
{
    match tx.blocking_send(request) {
        Ok(()) => Ok(()),
        Err(tokio::sync::mpsc::error::SendError(v)) => Err(v),
    }
}

/// Forwards one replay request to the ingestion worker, unchanged. Fails
/// exactly when the worker's receiving half is gone.
pub fn dispatch(
    tx: &tokio::sync::mpsc::Sender<OnchainEventsRequest>,
    request: OnchainEventsRequest,
) -> (r: Result<(), AdminServiceError>)
    ensures
        r is Err ==> r->Err_0 == AdminServiceError::ChannelClosed,
{
    match send_onchain_request(tx, request) {
        Ok(()) => Ok(()),
        Err(_) => Err(AdminServiceError::ChannelClosed),
    }
}

} // verus!
