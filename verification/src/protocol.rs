//! The command protocol: the closed set of operations the rest of the node
//! may request of the network layer, and the shape of the engine lookups a
//! command needs before it can be served.

use vstd::prelude::*;
use crate::types::BlockId;
use crate::types::GossipsubMessageAcceptance;
use crate::types::GossipsubMessageInfo;
use crate::types::HeightRange;

verus! {

/// A command submitted to the orchestration actor.
///
/// Each variant is a fire-and-forget broadcast instruction, a one-off query,
/// or a report instruction with no reply. A query's single-use reply channel
/// is owned by the embedding that runs the actor: the actor's decision for a
/// query always names exactly one action that consumes that channel, either a
/// direct reply or a peer request the channel is forwarded to.
#[derive(Clone, Debug, PartialEq, Eq)]
pub enum TaskRequest {
    /// Gossip a transaction payload to the network; the caller gets no reply.
    BroadcastTransaction(Vec<u8>),
    /// Gossip a block payload to the network; the caller gets no reply.
    BroadcastBlock(Vec<u8>),
    /// Gossip a consensus vote payload to the network; the caller gets no reply.
    BroadcastVote(Vec<u8>),
    /// Query: a snapshot of the currently known peer identities.
    GetPeerIds,
    /// Query: a sealed block at the given height, from a peer the actor
    /// selects by height.
    GetBlock { height: u32 },
    /// Query: the sealed headers in the given range, from the named peer.
    GetSealedHeaders { block_height_range: HeightRange, from_peer: Vec<u8> },
    /// Query: the transactions of the given block, from the named peer.
    GetTransactions { block_id: BlockId, from_peer: Vec<u8> },
    /// Query: the transactions of the given blocks, from the named peer.
    GetTransactions2 { block_ids: Vec<BlockId>, from_peer: Vec<u8> },
    /// Report: forward a deferred gossip validation verdict to the engine.
    RespondWithGossipsubMessageReport {
        message: GossipsubMessageInfo,
        acceptance: GossipsubMessageAcceptance,
    },
    /// Report: forward a peer reputation report to the engine. The numeric
    /// reputation delta is a floating-point value the actor never inspects;
    /// it rides alongside the command in the embedding.
    RespondWithPeerReport { peer_id: Vec<u8>, reporting_service: String },
    /// Query: select a peer known to be at or above the given height, with no
    /// network round-trip.
    SelectPeer { block_height: u32 },
}

/// An outbound request/response message the actor issues to a peer.
#[derive(Clone, Debug, PartialEq, Eq)]
pub enum RequestMessage {
    Block(u32),
    SealedHeaders(HeightRange),
    Transactions(BlockId),
    Transactions2(Vec<BlockId>),
}

/// The actor's answer, as responder, to a remote peer's request.
#[derive(Clone, Debug, PartialEq, Eq)]
pub enum OutboundResponse {
    Block(Option<Vec<u8>>),
    SealedHeaders(Option<Vec<Vec<u8>>>),
    Transactions(Option<Vec<Vec<u8>>>),
}

/// The engine lookup a command needs before the actor can decide on it.
#[derive(Clone, Copy, Debug, PartialEq, Eq)]
pub enum EngineQuery {
    /// The command is decided on its own content.
    Nothing,
    /// The command needs the current peer-identity snapshot.
    PeerIds,
    /// The command needs a peer known to be at or above this height.
    PeerWithHeight(u32),
}

/// The engine's answer to an [`EngineQuery`].
#[derive(Clone, Debug, PartialEq, Eq)]
pub enum EngineAnswer {
    Nothing,
    PeerIds(Vec<Vec<u8>>),
    Peer(Option<Vec<u8>>),
}

/// Which engine lookup each command needs.
pub open spec fn spec_command_query(cmd: TaskRequest) -> EngineQuery {
    match cmd {
        TaskRequest::GetPeerIds => EngineQuery::PeerIds,
        TaskRequest::GetBlock { height } => EngineQuery::PeerWithHeight(height),
        TaskRequest::SelectPeer { block_height } => EngineQuery::PeerWithHeight(block_height),
        _ => EngineQuery::Nothing,
    }
}

/// The engine lookup the actor must perform before handing this command to
/// [`crate::task::handle_command`].
pub fn command_query(cmd: &TaskRequest) -> (q: EngineQuery)
    ensures
        q == spec_command_query(*cmd),
{
    match cmd {
        TaskRequest::GetPeerIds => EngineQuery::PeerIds,
        TaskRequest::GetBlock { height } => EngineQuery::PeerWithHeight(*height),
        TaskRequest::SelectPeer { block_height } => EngineQuery::PeerWithHeight(*block_height),
        _ => EngineQuery::Nothing,
    }
}

/// Whether an engine answer has the shape the command's lookup calls for.
pub open spec fn answer_matches(cmd: TaskRequest, ans: EngineAnswer) -> bool {
    match spec_command_query(cmd) {
        EngineQuery::Nothing => ans is Nothing,
        EngineQuery::PeerIds => ans is PeerIds,
        EngineQuery::PeerWithHeight(_) => ans is Peer,
    }
}

/// The query commands: those that carry a single-use reply channel.
pub open spec fn is_query(cmd: TaskRequest) -> bool {
    match cmd {
        TaskRequest::GetPeerIds => true,
        TaskRequest::GetBlock { .. } => true,
        TaskRequest::GetSealedHeaders { .. } => true,
        TaskRequest::GetTransactions { .. } => true,
        TaskRequest::GetTransactions2 { .. } => true,
        TaskRequest::SelectPeer { .. } => true,
        _ => false,
    }
}

} // verus!
