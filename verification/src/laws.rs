//! The library's cross-cutting guarantees, each stated over the same spec
//! functions the executable functions are proved against.

use vstd::prelude::*;
use crate::facade::spec_make_get_sealed_headers_request;
use crate::protocol::answer_matches;
use crate::protocol::is_query;
use crate::protocol::EngineAnswer;
use crate::protocol::OutboundResponse;
use crate::protocol::RequestMessage;
use crate::protocol::TaskRequest;
use crate::task::consumes_reply;
use crate::task::spec_event_storage_query;
use crate::task::spec_handle_command;
use crate::task::spec_handle_network_event;
use crate::task::spec_step;
use crate::task::Action;
use crate::task::NetworkEvent;
use crate::task::StorageAnswer;
use crate::task::TaskInput;
use crate::types::FacadeError;
use crate::types::GossipData;
use crate::types::GossipsubMessage;
use crate::types::HeightRange;

verus! {

/// Law: for every query command, the actor's decision names exactly one
/// action that consumes the caller's single-use reply channel — a direct
/// reply, or a peer request the channel is forwarded to — and for every
/// other command it names none. The caller of a query therefore observes
/// exactly one reply per issued request while the actor runs; once the actor
/// has stopped, its dropped channel ends the caller's wait instead.
pub proof fn lemma_one_reply_per_query(cmd: TaskRequest, ans: EngineAnswer)
    requires
        answer_matches(cmd, ans),
    ensures
        is_query(cmd) ==> ({
            let r = spec_handle_command(cmd, ans);
            r.action matches Some(a) && consumes_reply(a)
        }),
        !is_query(cmd) ==> ({
            let r = spec_handle_command(cmd, ans);
            !(r.action matches Some(a) && consumes_reply(a))
        }),
{
}

/// Law: a sealed-headers call over an empty range fails validation at the
/// façade, whatever the peer and the configured maximum, so no command for
/// it is ever sent to the actor.
pub proof fn lemma_empty_range_rejected(peer_id: Vec<u8>, range: HeightRange, max_headers: u32)
    requires
        range.spec_len() == 0,
    ensures
        spec_make_get_sealed_headers_request(peer_id, range, max_headers) == Err::<
            TaskRequest,
            FacadeError,
        >(FacadeError::EmptyRange),
{
}

/// Law: a remote peer's sealed-headers request whose range covers more
/// heights than the configured maximum needs no storage lookup and is
/// answered with an empty response, the loop going on.
pub proof fn lemma_oversized_range_not_served(
    request_id: u64,
    range: HeightRange,
    max_headers: u32,
)
    requires
        range.spec_len() > max_headers,
    ensures
        spec_event_storage_query(
            NetworkEvent::RequestMessage {
                request: RequestMessage::SealedHeaders(range),
                request_id,
            },
            max_headers,
        ) is None,
        ({
            let r = spec_handle_network_event(
                NetworkEvent::RequestMessage {
                    request: RequestMessage::SealedHeaders(range),
                    request_id,
                },
                None,
                max_headers,
            );
            &&& r.action == Some(
                Action::SendResponse {
                    request_id,
                    response: OutboundResponse::SealedHeaders(None),
                },
            )
            &&& r.outcome is Continue
        }),
{
}

/// Law: the shutdown signal stops the loop with no side effect and nothing
/// rejected, and so does exhaustion of the imported-height stream; an actor
/// started and immediately asked to stop therefore stops cleanly.
pub proof fn lemma_shutdown_stops(max_headers: u32)
    ensures
        ({
            let r = spec_step(
                TaskInput::Shutdown,
                EngineAnswer::Nothing,
                Option::<StorageAnswer>::None,
                max_headers,
            );
            r.action is None && r.outcome is Stop && r.rejected is None
        }),
        ({
            let r = spec_step(
                TaskInput::ImportedHeight(None),
                EngineAnswer::Nothing,
                Option::<StorageAnswer>::None,
                max_headers,
            );
            r.action is None && r.outcome is Stop && r.rejected is None
        }),
{
}

/// Law: a broadcast command is fire and forget — its decision is a single
/// publish action, never a reply-consuming action, and the loop goes on
/// unconditionally. A failure of the engine's publish call is therefore
/// invisible to the original broadcaster, whom nothing answers; the
/// embedding may only log it.
pub proof fn lemma_broadcast_fire_and_forget(cmd: TaskRequest)
    requires
        cmd matches TaskRequest::BroadcastTransaction(_) || cmd
            matches TaskRequest::BroadcastBlock(_) || cmd matches TaskRequest::BroadcastVote(_),
    ensures
        ({
            let r = spec_handle_command(cmd, EngineAnswer::Nothing);
            &&& r.outcome is Continue
            &&& r.action is Some
            &&& !(r.action matches Some(a) && consumes_reply(a))
            &&& r.rejected is None
        }),
{
}

/// Law: a gossiped transaction arriving from the network is handed to the
/// transaction subscribers' broadcast channel with its originating peer and
/// its message identifier intact. Delivery to every active subscriber, and
/// to no late one, is then the broadcast channel's own contract.
pub proof fn lemma_gossip_transaction_provenance(
    data: Vec<u8>,
    message_id: Vec<u8>,
    peer_id: Vec<u8>,
    max_headers: u32,
)
    ensures
        ({
            let r = spec_handle_network_event(
                NetworkEvent::GossipsubMessage {
                    message: GossipsubMessage::NewTx(data),
                    message_id,
                    peer_id,
                },
                None,
                max_headers,
            );
            &&& r.action == Some(
                Action::BroadcastTransactionGossip(GossipData { data, peer_id, message_id }),
            )
            &&& r.outcome is Continue
        }),
{
}

/// Law: peer selection is the peer manager's answer, forwarded unchanged;
/// and a block query for which no suitable peer is known is answered locally
/// with nothing, with no network round-trip.
pub proof fn lemma_peer_selection_forwarded(block_height: u32, peer: Option<Vec<u8>>)
    ensures
        spec_handle_command(
            TaskRequest::SelectPeer { block_height },
            EngineAnswer::Peer(peer),
        ).action == Some(Action::ReplySelectedPeer(peer)),
        spec_handle_command(
            TaskRequest::GetBlock { height: block_height },
            EngineAnswer::Peer(None),
        ).action == Some(Action::ReplyBlock(None)),
{
}

} // verus!
