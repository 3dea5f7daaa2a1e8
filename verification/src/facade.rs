//! The façade's caller-facing validation.
//!
//! The rest of the node talks to the actor through a cheaply cloned handle
//! that turns method calls into commands on a bounded channel. Before any
//! command is sent, the caller's arguments are validated here: an invalid
//! call is answered with a descriptive error and no command ever reaches the
//! actor. The channel operations themselves — the non-blocking send for
//! fire-and-forget commands, the suspending send and reply await for queries
//! — are the embedding's; it sends exactly the commands these builders
//! return.

use vstd::prelude::*;
use crate::peer_id::peer_id_bytes_valid;
use crate::peer_id::peer_id_wf;
use crate::protocol::TaskRequest;
use crate::types::BlockId;
use crate::types::FacadeError;
use crate::types::GossipsubMessageAcceptance;
use crate::types::GossipsubMessageInfo;
use crate::types::HeightRange;

verus! {

/// The command a sealed-headers call produces, or why it is refused: an
/// empty range, a range covering more than `max_headers` heights, and a peer
/// identity that does not parse are rejected before any command is sent, in
/// that order of checks.
pub open spec fn spec_make_get_sealed_headers_request(
    peer_id: Vec<u8>,
    block_height_range: HeightRange,
    max_headers: u32,
) -> Result<TaskRequest, FacadeError> {
    if block_height_range.spec_len() == 0 {
        Err(FacadeError::EmptyRange)
    } else if block_height_range.spec_len() > max_headers {
        Err(FacadeError::RangeTooLarge)
    } else if !peer_id_wf(peer_id@) {
        Err(FacadeError::InvalidPeerId)
    } else {
        Ok(TaskRequest::GetSealedHeaders { block_height_range, from_peer: peer_id })
    }
}

/// Validate a sealed-headers call and build its command.
pub fn make_get_sealed_headers_request(
    peer_id: Vec<u8>,
    block_height_range: HeightRange,
    max_headers: u32,
) -> (r: Result<TaskRequest, FacadeError>)
    ensures
        r == spec_make_get_sealed_headers_request(peer_id, block_height_range, max_headers),
{
    if block_height_range.is_empty() {
        Err(FacadeError::EmptyRange)
    } else if block_height_range.len() > max_headers {
        Err(FacadeError::RangeTooLarge)
    } else if !peer_id_bytes_valid(&peer_id) {
        Err(FacadeError::InvalidPeerId)
    } else {
        Ok(TaskRequest::GetSealedHeaders { block_height_range, from_peer: peer_id })
    }
}

/// The command a transactions-by-block call produces, or why it is refused.
pub open spec fn spec_make_get_transactions_request(
    peer_id: Vec<u8>,
    block_id: BlockId,
) -> Result<TaskRequest, FacadeError> {
    if !peer_id_wf(peer_id@) {
        Err(FacadeError::InvalidPeerId)
    } else {
        Ok(TaskRequest::GetTransactions { block_id, from_peer: peer_id })
    }
}

/// Validate a transactions-by-block call and build its command.
pub fn make_get_transactions_request(peer_id: Vec<u8>, block_id: BlockId) -> (r: Result<
    TaskRequest,
    FacadeError,
>)
    ensures
        r == spec_make_get_transactions_request(peer_id, block_id),
{
    if !peer_id_bytes_valid(&peer_id) {
        Err(FacadeError::InvalidPeerId)
    } else {
        Ok(TaskRequest::GetTransactions { block_id, from_peer: peer_id })
    }
}

/// The command a transactions-by-blocks call produces, or why it is refused.
pub open spec fn spec_make_get_transactions_2_request(
    peer_id: Vec<u8>,
    block_ids: Vec<BlockId>,
) -> Result<TaskRequest, FacadeError> {
    if !peer_id_wf(peer_id@) {
        Err(FacadeError::InvalidPeerId)
    } else {
        Ok(TaskRequest::GetTransactions2 { block_ids, from_peer: peer_id })
    }
}

/// Validate a transactions-by-blocks call and build its command.
pub fn make_get_transactions_2_request(peer_id: Vec<u8>, block_ids: Vec<BlockId>) -> (r: Result<
    TaskRequest,
    FacadeError,
>)
    ensures
        r == spec_make_get_transactions_2_request(peer_id, block_ids),
{
    if !peer_id_bytes_valid(&peer_id) {
        Err(FacadeError::InvalidPeerId)
    } else {
        Ok(TaskRequest::GetTransactions2 { block_ids, from_peer: peer_id })
    }
}

/// The command a peer reputation report produces, or why it is refused: a
/// peer identity that does not parse is reported back to the caller, not
/// forwarded. The numeric reputation delta rides alongside the command in
/// the embedding.
pub open spec fn spec_make_peer_report(peer_id: Vec<u8>, reporting_service: String) -> Result<
    TaskRequest,
    FacadeError,
> {
    if !peer_id_wf(peer_id@) {
        Err(FacadeError::InvalidPeerId)
    } else {
        Ok(TaskRequest::RespondWithPeerReport { peer_id, reporting_service })
    }
}

/// Validate a peer reputation report and build its command.
pub fn make_peer_report(peer_id: Vec<u8>, reporting_service: String) -> (r: Result<
    TaskRequest,
    FacadeError,
>)
    ensures
        r == spec_make_peer_report(peer_id, reporting_service),
{
    if !peer_id_bytes_valid(&peer_id) {
        Err(FacadeError::InvalidPeerId)
    } else {
        Ok(TaskRequest::RespondWithPeerReport { peer_id, reporting_service })
    }
}

/// Build the command of a transaction broadcast; always valid.
pub fn make_broadcast_transaction(transaction: Vec<u8>) -> (r: TaskRequest)
    ensures
        r == TaskRequest::BroadcastTransaction(transaction),
{
    TaskRequest::BroadcastTransaction(transaction)
}

/// Build the command of a block broadcast; always valid.
pub fn make_broadcast_block(block: Vec<u8>) -> (r: TaskRequest)
    ensures
        r == TaskRequest::BroadcastBlock(block),
{
    TaskRequest::BroadcastBlock(block)
}

/// Build the command of a consensus vote broadcast; always valid.
pub fn make_broadcast_vote(vote: Vec<u8>) -> (r: TaskRequest)
    ensures
        r == TaskRequest::BroadcastVote(vote),
{
    TaskRequest::BroadcastVote(vote)
}

/// Build the command that forwards a deferred gossip validation verdict;
/// always valid: a verdict whose peer identity turns out malformed is
/// dropped by the actor, not by the façade.
pub fn make_gossip_validity_report(
    message: GossipsubMessageInfo,
    acceptance: GossipsubMessageAcceptance,
) -> (r: TaskRequest)
    ensures
        r == (TaskRequest::RespondWithGossipsubMessageReport { message, acceptance }),
{
    TaskRequest::RespondWithGossipsubMessageReport { message, acceptance }
}

/// Build the command of a block query; always valid.
pub fn make_get_block_request(height: u32) -> (r: TaskRequest)
    ensures
        r == (TaskRequest::GetBlock { height }),
{
    TaskRequest::GetBlock { height }
}

/// Build the command of a peer-selection query; always valid.
pub fn make_select_peer_request(block_height: u32) -> (r: TaskRequest)
    ensures
        r == (TaskRequest::SelectPeer { block_height }),
{
    TaskRequest::SelectPeer { block_height }
}

/// Build the command of a peer-identity snapshot query; always valid.
pub fn make_get_peer_ids_request() -> (r: TaskRequest)
    ensures
        r == TaskRequest::GetPeerIds,
{
    TaskRequest::GetPeerIds
}

} // verus!
