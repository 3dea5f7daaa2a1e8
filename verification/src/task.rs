//! The orchestration actor's decision logic.
//!
//! The actor multiplexes four input sources — a shutdown signal, inbound
//! commands, network engine events, and locally imported block heights — and
//! is the single owner of the network engine. Each iteration of its loop
//! services exactly one input. The functions here are that iteration's
//! decisions, taken on plain values: given the input and the answers of the
//! collaborators the input consults (the engine's peer manager, the storage
//! port), they name the one side effect to perform and whether the loop goes
//! on. The embedding that owns the channels and the engine performs the
//! effect.

use vstd::prelude::*;
use crate::peer_id::peer_id_bytes_valid;
use crate::peer_id::peer_id_wf;
use crate::protocol::answer_matches;
use crate::protocol::is_query;
use crate::protocol::EngineAnswer;
use crate::protocol::OutboundResponse;
use crate::protocol::RequestMessage;
use crate::protocol::TaskRequest;
use crate::types::BlockHeightHeartbeatData;
use crate::types::GossipData;
use crate::types::GossipsubMessage;
use crate::types::GossipsubMessageAcceptance;
use crate::types::GossipsubMessageInfo;

verus! {

/// A side effect the actor instructs its embedding to perform.
#[derive(Clone, Debug, PartialEq, Eq)]
pub enum Action {
    /// Publish a transaction payload on the gossip network.
    PublishTransaction(Vec<u8>),
    /// Publish a block payload on the gossip network.
    PublishBlock(Vec<u8>),
    /// Publish a consensus vote payload on the gossip network.
    PublishVote(Vec<u8>),
    /// Fulfill the pending peer-identity query with this snapshot.
    ReplyPeerIds(Vec<Vec<u8>>),
    /// Fulfill the pending block query directly, without a network round-trip.
    ReplyBlock(Option<Vec<u8>>),
    /// Fulfill the pending peer-selection query.
    ReplySelectedPeer(Option<Vec<u8>>),
    /// Issue a request to the named peer, forwarding the pending query's
    /// reply channel to be fulfilled by the eventual response event.
    SendRequest { peer: Vec<u8>, request: RequestMessage },
    /// Answer a remote peer's request.
    SendResponse { request_id: u64, response: OutboundResponse },
    /// Forward a gossip validation verdict to the engine.
    ReportMessageValidity {
        message_id: Vec<u8>,
        peer_id: Vec<u8>,
        acceptance: GossipsubMessageAcceptance,
    },
    /// Forward a peer reputation report to the engine. The numeric delta
    /// rides alongside the command in the embedding.
    ReportPeer { peer_id: Vec<u8>, reporting_service: String },
    /// Advertise a newly imported local block height to the network.
    UpdateBlockHeight(u32),
    /// Hand a gossiped transaction, with its provenance, to the transaction
    /// subscribers' broadcast channel.
    BroadcastTransactionGossip(GossipData),
    /// Hand a peer's advertised height to the heartbeat broadcast channel.
    BroadcastHeartbeat(BlockHeightHeartbeatData),
}

/// Whether an action consumes the single-use reply channel of the command
/// being served: either it fulfills the channel itself, or it forwards the
/// channel into an in-flight peer request.
pub open spec fn consumes_reply(a: Action) -> bool {
    match a {
        Action::ReplyPeerIds(_) => true,
        Action::ReplyBlock(_) => true,
        Action::ReplySelectedPeer(_) => true,
        Action::SendRequest { .. } => true,
        _ => false,
    }
}

/// How the iteration leaves the loop's lifecycle.
#[derive(Clone, Copy, Debug, PartialEq, Eq)]
pub enum TaskOutcome {
    /// The loop is re-entered.
    Continue,
    /// The loop stops normally: the shutdown signal fired, or the imported
    /// height stream is exhausted.
    Stop,
    /// The storage port failed while answering a remote peer: a best-effort
    /// empty response was still named, and the actor halts; local data-layer
    /// integrity failures stop the node rather than silently degrade.
    Fatal,
}

/// A remote peer's request the responder explicitly rejects rather than
/// serves; the embedding surfaces it instead of silently dropping it.
#[derive(Clone, Copy, Debug, PartialEq, Eq)]
pub enum RejectedRequest {
    /// Responder logic for the second transactions-by-block-ids variant is
    /// deliberately not provided; the request is answered empty and rejected
    /// with this typed notice at the protocol boundary.
    UnsupportedTransactions2 { request_id: u64 },
}

/// One loop iteration's decision: at most one side effect, the lifecycle
/// outcome, and any explicit protocol rejection.
#[derive(Clone, Debug, PartialEq, Eq)]
pub struct Step {
    pub action: Option<Action>,
    pub outcome: TaskOutcome,
    pub rejected: Option<RejectedRequest>,
}

/// An event the network engine hands the actor.
#[derive(Clone, Debug, PartialEq, Eq)]
pub enum NetworkEvent {
    /// A peer advertised its chain height.
    PeerInfoUpdated { peer_id: Vec<u8>, block_height: u32 },
    /// A gossip message arrived, with its provenance.
    GossipsubMessage { message: GossipsubMessage, message_id: Vec<u8>, peer_id: Vec<u8> },
    /// A remote peer requested data; the actor is the responder.
    RequestMessage { request: RequestMessage, request_id: u64 },
    /// Any other event shape; ignored.
    Other,
}

/// A read-only lookup the responder needs from the storage port.
#[derive(Clone, Debug, PartialEq, Eq)]
pub enum StorageQuery {
    SealedBlock(u32),
    Transactions(crate::types::BlockId),
    SealedHeaders(crate::types::HeightRange),
}

/// What the storage port answered.
#[derive(Clone, Debug, PartialEq, Eq)]
pub enum StorageAnswer {
    Block(Option<Vec<u8>>),
    Transactions(Option<Vec<Vec<u8>>>),
    SealedHeaders(Vec<Vec<u8>>),
    /// The storage port reported a domain storage error.
    Failed,
}

/// The step that makes no effect and keeps the loop running.
pub open spec fn idle_step() -> Step {
    Step { action: None, outcome: TaskOutcome::Continue, rejected: None }
}

/// Which storage lookup, if any, an event needs before the actor can decide
/// on it. A sealed-headers request whose range covers more heights than
/// `max_headers` allows is decided without any lookup.
pub open spec fn spec_event_storage_query(ev: NetworkEvent, max_headers: u32) -> Option<
    StorageQuery,
> {
    match ev {
        NetworkEvent::RequestMessage { request, .. } => match request {
            RequestMessage::Block(height) => Some(StorageQuery::SealedBlock(height)),
            RequestMessage::Transactions(block_id) => Some(StorageQuery::Transactions(block_id)),
            RequestMessage::Transactions2(_) => None,
            RequestMessage::SealedHeaders(range) => if range.spec_len() > max_headers {
                None
            } else {
                Some(StorageQuery::SealedHeaders(range))
            },
        },
        _ => None,
    }
}

/// The storage lookup the actor must perform before handing this event to
/// [`handle_network_event`].
pub fn event_storage_query(ev: &NetworkEvent, max_headers: u32) -> (q: Option<StorageQuery>)
    ensures
        q == spec_event_storage_query(*ev, max_headers),
{
    match ev {
        NetworkEvent::RequestMessage { request, .. } => match request {
            RequestMessage::Block(height) => Some(StorageQuery::SealedBlock(*height)),
            RequestMessage::Transactions(block_id) => Some(
                StorageQuery::Transactions(*block_id),
            ),
            RequestMessage::Transactions2(_) => None,
            RequestMessage::SealedHeaders(range) => {
                if range.len() > max_headers {
                    None
                } else {
                    Some(StorageQuery::SealedHeaders(*range))
                }
            },
        },
        _ => None,
    }
}

/// Whether a storage answer has the shape the query calls for; a failure
/// report fits any query.
pub open spec fn answer_fits(q: StorageQuery, a: StorageAnswer) -> bool {
    match (q, a) {
        (StorageQuery::SealedBlock(_), StorageAnswer::Block(_)) => true,
        (StorageQuery::Transactions(_), StorageAnswer::Transactions(_)) => true,
        (StorageQuery::SealedHeaders(_), StorageAnswer::SealedHeaders(_)) => true,
        (_, StorageAnswer::Failed) => true,
        _ => false,
    }
}

/// Whether the storage answer supplied with an event is the one the event's
/// lookup calls for: present exactly when a lookup is needed, of its shape.
pub open spec fn storage_matches(
    ev: NetworkEvent,
    storage: Option<StorageAnswer>,
    max_headers: u32,
) -> bool {
    match spec_event_storage_query(ev, max_headers) {
        None => storage is None,
        Some(q) => match storage {
            None => false,
            Some(a) => answer_fits(q, a),
        },
    }
}

/// The verdict forwarded to the engine for a gossip message, if its reporting
/// peer's identity is well formed; a malformed identity makes the report a
/// no-op rather than a failure.
pub open spec fn spec_report_message(
    message: GossipsubMessageInfo,
    acceptance: GossipsubMessageAcceptance,
) -> Option<Action> {
    if peer_id_wf(message.peer_id@) {
        Some(
            Action::ReportMessageValidity {
                message_id: message.message_id,
                peer_id: message.peer_id,
                acceptance,
            },
        )
    } else {
        None
    }
}

/// Turn a deferred gossip validation verdict into the engine report to
/// perform, or nothing if the reporting peer's identity does not parse.
pub fn report_message(
    message: GossipsubMessageInfo,
    acceptance: GossipsubMessageAcceptance,
) -> (r: Option<Action>)
    ensures
        r == spec_report_message(message, acceptance),
{
    let GossipsubMessageInfo { message_id, peer_id } = message;
    if peer_id_bytes_valid(&peer_id) {
        Some(Action::ReportMessageValidity { message_id, peer_id, acceptance })
    } else {
        None
    }
}

/// The actor's decision for one inbound command, given the engine answer the
/// command's lookup called for.
pub open spec fn spec_handle_command(cmd: TaskRequest, ans: EngineAnswer) -> Step {
    match cmd {
        TaskRequest::BroadcastTransaction(tx) => Step {
            action: Some(Action::PublishTransaction(tx)),
            outcome: TaskOutcome::Continue,
            rejected: None,
        },
        TaskRequest::BroadcastBlock(block) => Step {
            action: Some(Action::PublishBlock(block)),
            outcome: TaskOutcome::Continue,
            rejected: None,
        },
        TaskRequest::BroadcastVote(vote) => Step {
            action: Some(Action::PublishVote(vote)),
            outcome: TaskOutcome::Continue,
            rejected: None,
        },
        TaskRequest::GetPeerIds => match ans {
            EngineAnswer::PeerIds(ids) => Step {
                action: Some(Action::ReplyPeerIds(ids)),
                outcome: TaskOutcome::Continue,
                rejected: None,
            },
            _ => idle_step(),
        },
        TaskRequest::GetBlock { height } => match ans {
            EngineAnswer::Peer(Some(peer)) => Step {
                action: Some(
                    Action::SendRequest { peer, request: RequestMessage::Block(height) },
                ),
                outcome: TaskOutcome::Continue,
                rejected: None,
            },
            EngineAnswer::Peer(None) => Step {
                action: Some(Action::ReplyBlock(None)),
                outcome: TaskOutcome::Continue,
                rejected: None,
            },
            _ => idle_step(),
        },
        TaskRequest::GetSealedHeaders { block_height_range, from_peer } => Step {
            action: Some(
                Action::SendRequest {
                    peer: from_peer,
                    request: RequestMessage::SealedHeaders(block_height_range),
                },
            ),
            outcome: TaskOutcome::Continue,
            rejected: None,
        },
        TaskRequest::GetTransactions { block_id, from_peer } => Step {
            action: Some(
                Action::SendRequest {
                    peer: from_peer,
                    request: RequestMessage::Transactions(block_id),
                },
            ),
            outcome: TaskOutcome::Continue,
            rejected: None,
        },
        TaskRequest::GetTransactions2 { block_ids, from_peer } => Step {
            action: Some(
                Action::SendRequest {
                    peer: from_peer,
                    request: RequestMessage::Transactions2(block_ids),
                },
            ),
            outcome: TaskOutcome::Continue,
            rejected: None,
        },
        TaskRequest::RespondWithGossipsubMessageReport { message, acceptance } => Step {
            action: spec_report_message(message, acceptance),
            outcome: TaskOutcome::Continue,
            rejected: None,
        },
        TaskRequest::RespondWithPeerReport { peer_id, reporting_service } => Step {
            action: Some(Action::ReportPeer { peer_id, reporting_service }),
            outcome: TaskOutcome::Continue,
            rejected: None,
        },
        TaskRequest::SelectPeer { .. } => match ans {
            EngineAnswer::Peer(peer) => Step {
                action: Some(Action::ReplySelectedPeer(peer)),
                outcome: TaskOutcome::Continue,
                rejected: None,
            },
            _ => idle_step(),
        },
    }
}

/// Serve one inbound command.
///
/// `ans` is the engine's answer to [`crate::protocol::command_query`] for
/// this command.
pub fn handle_command(cmd: TaskRequest, ans: EngineAnswer) -> (r: Step)
    requires
        answer_matches(cmd, ans),
    ensures
        r == spec_handle_command(cmd, ans),
{
    match cmd {
        TaskRequest::BroadcastTransaction(tx) => Step {
            action: Some(Action::PublishTransaction(tx)),
            outcome: TaskOutcome::Continue,
            rejected: None,
        },
        TaskRequest::BroadcastBlock(block) => Step {
            action: Some(Action::PublishBlock(block)),
            outcome: TaskOutcome::Continue,
            rejected: None,
        },
        TaskRequest::BroadcastVote(vote) => Step {
            action: Some(Action::PublishVote(vote)),
            outcome: TaskOutcome::Continue,
            rejected: None,
        },
        TaskRequest::GetPeerIds => match ans {
            EngineAnswer::PeerIds(ids) => Step {
                action: Some(Action::ReplyPeerIds(ids)),
                outcome: TaskOutcome::Continue,
                rejected: None,
            },
            _ => {
                proof {
                    assert(false);
                }
                Step { action: None, outcome: TaskOutcome::Continue, rejected: None }
            },
        },
        TaskRequest::GetBlock { height } => match ans {
            EngineAnswer::Peer(Some(peer)) => Step {
                action: Some(
                    Action::SendRequest { peer, request: RequestMessage::Block(height) },
                ),
                outcome: TaskOutcome::Continue,
                rejected: None,
            },
            EngineAnswer::Peer(None) => Step {
                action: Some(Action::ReplyBlock(None)),
                outcome: TaskOutcome::Continue,
                rejected: None,
            },
            _ => {
                proof {
                    assert(false);
                }
                Step { action: None, outcome: TaskOutcome::Continue, rejected: None }
            },
        },
        TaskRequest::GetSealedHeaders { block_height_range, from_peer } => Step {
            action: Some(
                Action::SendRequest {
                    peer: from_peer,
                    request: RequestMessage::SealedHeaders(block_height_range),
                },
            ),
            outcome: TaskOutcome::Continue,
            rejected: None,
        },
        TaskRequest::GetTransactions { block_id, from_peer } => Step {
            action: Some(
                Action::SendRequest {
                    peer: from_peer,
                    request: RequestMessage::Transactions(block_id),
                },
            ),
            outcome: TaskOutcome::Continue,
            rejected: None,
        },
        TaskRequest::GetTransactions2 { block_ids, from_peer } => Step {
            action: Some(
                Action::SendRequest {
                    peer: from_peer,
                    request: RequestMessage::Transactions2(block_ids),
                },
            ),
            outcome: TaskOutcome::Continue,
            rejected: None,
        },
        TaskRequest::RespondWithGossipsubMessageReport { message, acceptance } => Step {
            action: report_message(message, acceptance),
            outcome: TaskOutcome::Continue,
            rejected: None,
        },
        TaskRequest::RespondWithPeerReport { peer_id, reporting_service } => Step {
            action: Some(Action::ReportPeer { peer_id, reporting_service }),
            outcome: TaskOutcome::Continue,
            rejected: None,
        },
        TaskRequest::SelectPeer { .. } => match ans {
            EngineAnswer::Peer(peer) => Step {
                action: Some(Action::ReplySelectedPeer(peer)),
                outcome: TaskOutcome::Continue,
                rejected: None,
            },
            _ => {
                proof {
                    assert(false);
                }
                Step { action: None, outcome: TaskOutcome::Continue, rejected: None }
            },
        },
    }
}

/// The actor's decision for one network engine event, given the storage
/// answer the event's lookup called for.
pub open spec fn spec_handle_network_event(
    ev: NetworkEvent,
    storage: Option<StorageAnswer>,
    max_headers: u32,
) -> Step {
    match ev {
        NetworkEvent::PeerInfoUpdated { peer_id, block_height } => Step {
            action: Some(
                Action::BroadcastHeartbeat(BlockHeightHeartbeatData { peer_id, block_height }),
            ),
            outcome: TaskOutcome::Continue,
            rejected: None,
        },
        NetworkEvent::GossipsubMessage { message, message_id, peer_id } => match message {
            GossipsubMessage::NewTx(data) => Step {
                action: Some(
                    Action::BroadcastTransactionGossip(GossipData { data, peer_id, message_id }),
                ),
                outcome: TaskOutcome::Continue,
                rejected: None,
            },
            // Relaying newly received blocks and votes is intentionally not
            // yet wired to any subscriber: the envelope is well formed but no
            // effect is produced.
            _ => idle_step(),
        },
        NetworkEvent::RequestMessage { request, request_id } => match request {
            RequestMessage::Block(_) => match storage {
                Some(StorageAnswer::Block(block)) => Step {
                    action: Some(
                        Action::SendResponse { request_id, response: OutboundResponse::Block(block) },
                    ),
                    outcome: TaskOutcome::Continue,
                    rejected: None,
                },
                Some(StorageAnswer::Failed) => Step {
                    action: Some(
                        Action::SendResponse { request_id, response: OutboundResponse::Block(None) },
                    ),
                    outcome: TaskOutcome::Fatal,
                    rejected: None,
                },
                _ => idle_step(),
            },
            RequestMessage::Transactions(_) => match storage {
                Some(StorageAnswer::Transactions(txs)) => Step {
                    action: Some(
                        Action::SendResponse {
                            request_id,
                            response: OutboundResponse::Transactions(txs),
                        },
                    ),
                    outcome: TaskOutcome::Continue,
                    rejected: None,
                },
                Some(StorageAnswer::Failed) => Step {
                    action: Some(
                        Action::SendResponse {
                            request_id,
                            response: OutboundResponse::Transactions(None),
                        },
                    ),
                    outcome: TaskOutcome::Fatal,
                    rejected: None,
                },
                _ => idle_step(),
            },
            RequestMessage::Transactions2(_) => Step {
                action: Some(
                    Action::SendResponse {
                        request_id,
                        response: OutboundResponse::Transactions(None),
                    },
                ),
                outcome: TaskOutcome::Continue,
                rejected: Some(RejectedRequest::UnsupportedTransactions2 { request_id }),
            },
            RequestMessage::SealedHeaders(range) => if range.spec_len() > max_headers {
                Step {
                    action: Some(
                        Action::SendResponse {
                            request_id,
                            response: OutboundResponse::SealedHeaders(None),
                        },
                    ),
                    outcome: TaskOutcome::Continue,
                    rejected: None,
                }
            } else {
                match storage {
                    Some(StorageAnswer::SealedHeaders(headers)) => Step {
                        action: Some(
                            Action::SendResponse {
                                request_id,
                                response: OutboundResponse::SealedHeaders(Some(headers)),
                            },
                        ),
                        outcome: TaskOutcome::Continue,
                        rejected: None,
                    },
                    Some(StorageAnswer::Failed) => Step {
                        action: Some(
                            Action::SendResponse {
                                request_id,
                                response: OutboundResponse::SealedHeaders(None),
                            },
                        ),
                        outcome: TaskOutcome::Fatal,
                        rejected: None,
                    },
                    _ => idle_step(),
                }
            },
        },
        NetworkEvent::Other => idle_step(),
    }
}

/// Serve one network engine event.
///
/// `storage` is the storage port's answer to [`event_storage_query`] for this
/// event, or the report that the port failed.
pub fn handle_network_event(
    ev: NetworkEvent,
    storage: Option<StorageAnswer>,
    max_headers: u32,
) -> (r: Step)
    requires
        storage_matches(ev, storage, max_headers),
    ensures
        r == spec_handle_network_event(ev, storage, max_headers),
{
    match ev {
        NetworkEvent::PeerInfoUpdated { peer_id, block_height } => Step {
            action: Some(
                Action::BroadcastHeartbeat(BlockHeightHeartbeatData { peer_id, block_height }),
            ),
            outcome: TaskOutcome::Continue,
            rejected: None,
        },
        NetworkEvent::GossipsubMessage { message, message_id, peer_id } => match message {
            GossipsubMessage::NewTx(data) => Step {
                action: Some(
                    Action::BroadcastTransactionGossip(GossipData { data, peer_id, message_id }),
                ),
                outcome: TaskOutcome::Continue,
                rejected: None,
            },
            _ => Step { action: None, outcome: TaskOutcome::Continue, rejected: None },
        },
        NetworkEvent::RequestMessage { request, request_id } => match request {
            RequestMessage::Block(_) => match storage {
                Some(StorageAnswer::Block(block)) => Step {
                    action: Some(
                        Action::SendResponse { request_id, response: OutboundResponse::Block(block) },
                    ),
                    outcome: TaskOutcome::Continue,
                    rejected: None,
                },
                Some(StorageAnswer::Failed) => Step {
                    action: Some(
                        Action::SendResponse { request_id, response: OutboundResponse::Block(None) },
                    ),
                    outcome: TaskOutcome::Fatal,
                    rejected: None,
                },
                _ => {
                    proof {
                        assert(false);
                    }
                    Step { action: None, outcome: TaskOutcome::Continue, rejected: None }
                },
            },
            RequestMessage::Transactions(_) => match storage {
                Some(StorageAnswer::Transactions(txs)) => Step {
                    action: Some(
                        Action::SendResponse {
                            request_id,
                            response: OutboundResponse::Transactions(txs),
                        },
                    ),
                    outcome: TaskOutcome::Continue,
                    rejected: None,
                },
                Some(StorageAnswer::Failed) => Step {
                    action: Some(
                        Action::SendResponse {
                            request_id,
                            response: OutboundResponse::Transactions(None),
                        },
                    ),
                    outcome: TaskOutcome::Fatal,
                    rejected: None,
                },
                _ => {
                    proof {
                        assert(false);
                    }
                    Step { action: None, outcome: TaskOutcome::Continue, rejected: None }
                },
            },
            RequestMessage::Transactions2(_) => Step {
                action: Some(
                    Action::SendResponse {
                        request_id,
                        response: OutboundResponse::Transactions(None),
                    },
                ),
                outcome: TaskOutcome::Continue,
                rejected: Some(RejectedRequest::UnsupportedTransactions2 { request_id }),
            },
            RequestMessage::SealedHeaders(range) => {
                if range.len() > max_headers {
                    Step {
                        action: Some(
                            Action::SendResponse {
                                request_id,
                                response: OutboundResponse::SealedHeaders(None),
                            },
                        ),
                        outcome: TaskOutcome::Continue,
                        rejected: None,
                    }
                } else {
                    match storage {
                        Some(StorageAnswer::SealedHeaders(headers)) => Step {
                            action: Some(
                                Action::SendResponse {
                                    request_id,
                                    response: OutboundResponse::SealedHeaders(Some(headers)),
                                },
                            ),
                            outcome: TaskOutcome::Continue,
                            rejected: None,
                        },
                        Some(StorageAnswer::Failed) => Step {
                            action: Some(
                                Action::SendResponse {
                                    request_id,
                                    response: OutboundResponse::SealedHeaders(None),
                                },
                            ),
                            outcome: TaskOutcome::Fatal,
                            rejected: None,
                        },
                        _ => {
                            proof {
                                assert(false);
                            }
                            Step { action: None, outcome: TaskOutcome::Continue, rejected: None }
                        },
                    }
                }
            },
        },
        NetworkEvent::Other => Step {
            action: None,
            outcome: TaskOutcome::Continue,
            rejected: None,
        },
    }
}

/// The actor's decision for the imported-height source: a new height is
/// advertised to the network; an exhausted stream stops the loop normally.
pub open spec fn spec_handle_height_update(height: Option<u32>) -> Step {
    match height {
        Some(h) => Step {
            action: Some(Action::UpdateBlockHeight(h)),
            outcome: TaskOutcome::Continue,
            rejected: None,
        },
        None => Step { action: None, outcome: TaskOutcome::Stop, rejected: None },
    }
}

/// Serve one value of the imported-height stream, or its exhaustion.
pub fn handle_height_update(height: Option<u32>) -> (r: Step)
    ensures
        r == spec_handle_height_update(height),
{
    match height {
        Some(h) => Step {
            action: Some(Action::UpdateBlockHeight(h)),
            outcome: TaskOutcome::Continue,
            rejected: None,
        },
        None => Step { action: None, outcome: TaskOutcome::Stop, rejected: None },
    }
}

/// One of the loop's four input sources, after the embedding's multiplexed
/// wait has arbitrated which source is serviced this iteration. A command
/// channel that reports exhaustion is not an input: the actor's embedding
/// holds a sender for the actor's whole lifetime, so that state is an
/// unrecoverable logic error, not a handled one.
#[derive(Clone, Debug, PartialEq, Eq)]
pub enum TaskInput {
    /// The shutdown signal fired; checked with the highest priority.
    Shutdown,
    /// An inbound command.
    Command(TaskRequest),
    /// A network engine event.
    Network(NetworkEvent),
    /// A locally imported block height, or the stream's exhaustion.
    ImportedHeight(Option<u32>),
}

/// Whether the collaborator answers supplied with an input are the ones the
/// input calls for.
pub open spec fn step_inputs_match(
    input: TaskInput,
    ans: EngineAnswer,
    storage: Option<StorageAnswer>,
    max_headers: u32,
) -> bool {
    match input {
        TaskInput::Shutdown => ans is Nothing && storage is None,
        TaskInput::Command(cmd) => answer_matches(cmd, ans) && storage is None,
        TaskInput::Network(ev) => ans is Nothing && storage_matches(ev, storage, max_headers),
        TaskInput::ImportedHeight(_) => ans is Nothing && storage is None,
    }
}

/// One loop iteration's decision, over all four input sources.
pub open spec fn spec_step(
    input: TaskInput,
    ans: EngineAnswer,
    storage: Option<StorageAnswer>,
    max_headers: u32,
) -> Step {
    match input {
        TaskInput::Shutdown => Step {
            action: None,
            outcome: TaskOutcome::Stop,
            rejected: None,
        },
        TaskInput::Command(cmd) => spec_handle_command(cmd, ans),
        TaskInput::Network(ev) => spec_handle_network_event(ev, storage, max_headers),
        TaskInput::ImportedHeight(height) => spec_handle_height_update(height),
    }
}

/// Serve one loop iteration: decide the side effect to perform and whether
/// the loop goes on, for whichever input source was serviced.
pub fn step(
    input: TaskInput,
    ans: EngineAnswer,
    storage: Option<StorageAnswer>,
    max_headers: u32,
) -> (r: Step)
    requires
        step_inputs_match(input, ans, storage, max_headers),
    ensures
        r == spec_step(input, ans, storage, max_headers),
{
    match input {
        TaskInput::Shutdown => Step {
            action: None,
            outcome: TaskOutcome::Stop,
            rejected: None,
        },
        TaskInput::Command(cmd) => handle_command(cmd, ans),
        TaskInput::Network(ev) => handle_network_event(ev, storage, max_headers),
        TaskInput::ImportedHeight(height) => handle_height_update(height),
    }
}

} // verus!
