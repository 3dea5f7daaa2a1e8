use p2p_task::protocol::command_query;
use p2p_task::protocol::EngineAnswer;
use p2p_task::protocol::EngineQuery;
use p2p_task::protocol::OutboundResponse;
use p2p_task::protocol::RequestMessage;
use p2p_task::protocol::TaskRequest;
use p2p_task::task::event_storage_query;
use p2p_task::task::handle_command;
use p2p_task::task::handle_height_update;
use p2p_task::task::handle_network_event;
use p2p_task::task::step;
use p2p_task::task::Action;
use p2p_task::task::NetworkEvent;
use p2p_task::task::RejectedRequest;
use p2p_task::task::StorageAnswer;
use p2p_task::task::StorageQuery;
use p2p_task::task::TaskInput;
use p2p_task::task::TaskOutcome;
use p2p_task::types::BlockHeightHeartbeatData;
use p2p_task::types::GossipData;
use p2p_task::types::GossipsubMessage;
use p2p_task::types::GossipsubMessageAcceptance;
use p2p_task::types::GossipsubMessageInfo;
use p2p_task::types::HeightRange;

/// A byte string that parses as a peer identity: a multihash with the
/// 32-byte-digest code, followed by 32 digest bytes.
fn valid_peer_bytes() -> Vec<u8> {
    let mut bytes = vec![0x12u8, 0x20];
    bytes.extend(std::iter::repeat(0xcdu8).take(32));
    bytes
}

#[test]
fn broadcast_commands_publish_and_answer_nobody() {
    let cases = vec![
        (
            TaskRequest::BroadcastTransaction(vec![1, 2]),
            Action::PublishTransaction(vec![1, 2]),
        ),
        (TaskRequest::BroadcastBlock(vec![3]), Action::PublishBlock(vec![3])),
        (TaskRequest::BroadcastVote(vec![4]), Action::PublishVote(vec![4])),
    ];
    for (cmd, expected) in cases {
        let r = handle_command(cmd, EngineAnswer::Nothing);
        assert_eq!(r.action, Some(expected));
        assert_eq!(r.outcome, TaskOutcome::Continue);
        assert_eq!(r.rejected, None);
    }
}

#[test]
fn get_peer_ids_replies_with_the_snapshot() {
    let ids = vec![vec![1u8, 2], vec![3u8]];
    let r = handle_command(TaskRequest::GetPeerIds, EngineAnswer::PeerIds(ids.clone()));
    assert_eq!(r.action, Some(Action::ReplyPeerIds(ids)));
    assert_eq!(r.outcome, TaskOutcome::Continue);
}

#[test]
fn get_block_with_a_suitable_peer_sends_the_request() {
    let peer = valid_peer_bytes();
    let r = handle_command(
        TaskRequest::GetBlock { height: 42 },
        EngineAnswer::Peer(Some(peer.clone())),
    );
    assert_eq!(
        r.action,
        Some(Action::SendRequest { peer, request: RequestMessage::Block(42) })
    );
}

#[test]
fn get_block_without_a_suitable_peer_replies_nothing_locally() {
    let r = handle_command(TaskRequest::GetBlock { height: 42 }, EngineAnswer::Peer(None));
    assert_eq!(r.action, Some(Action::ReplyBlock(None)));
    assert_eq!(r.outcome, TaskOutcome::Continue);
}

#[test]
fn explicit_peer_queries_forward_to_that_peer() {
    let peer = valid_peer_bytes();
    let range = HeightRange { start: 1, end: 4 };
    let r = handle_command(
        TaskRequest::GetSealedHeaders { block_height_range: range, from_peer: peer.clone() },
        EngineAnswer::Nothing,
    );
    assert_eq!(
        r.action,
        Some(Action::SendRequest {
            peer: peer.clone(),
            request: RequestMessage::SealedHeaders(range),
        })
    );

    let r = handle_command(
        TaskRequest::GetTransactions { block_id: [9u8; 32], from_peer: peer.clone() },
        EngineAnswer::Nothing,
    );
    assert_eq!(
        r.action,
        Some(Action::SendRequest {
            peer: peer.clone(),
            request: RequestMessage::Transactions([9u8; 32]),
        })
    );

    let r = handle_command(
        TaskRequest::GetTransactions2 { block_ids: vec![[1u8; 32]], from_peer: peer.clone() },
        EngineAnswer::Nothing,
    );
    assert_eq!(
        r.action,
        Some(Action::SendRequest {
            peer,
            request: RequestMessage::Transactions2(vec![[1u8; 32]]),
        })
    );
}

#[test]
fn gossip_report_with_valid_peer_reaches_the_engine() {
    let peer = valid_peer_bytes();
    let r = handle_command(
        TaskRequest::RespondWithGossipsubMessageReport {
            message: GossipsubMessageInfo { message_id: vec![7, 8], peer_id: peer.clone() },
            acceptance: GossipsubMessageAcceptance::Accept,
        },
        EngineAnswer::Nothing,
    );
    assert_eq!(
        r.action,
        Some(Action::ReportMessageValidity {
            message_id: vec![7, 8],
            peer_id: peer,
            acceptance: GossipsubMessageAcceptance::Accept,
        })
    );
}

#[test]
fn gossip_report_with_malformed_peer_is_dropped() {
    let r = handle_command(
        TaskRequest::RespondWithGossipsubMessageReport {
            message: GossipsubMessageInfo { message_id: vec![7, 8], peer_id: vec![1] },
            acceptance: GossipsubMessageAcceptance::Reject,
        },
        EngineAnswer::Nothing,
    );
    assert_eq!(r.action, None);
    assert_eq!(r.outcome, TaskOutcome::Continue);
}

#[test]
fn peer_report_command_forwards_to_the_engine() {
    let peer = valid_peer_bytes();
    let r = handle_command(
        TaskRequest::RespondWithPeerReport {
            peer_id: peer.clone(),
            reporting_service: String::from("consensus"),
        },
        EngineAnswer::Nothing,
    );
    assert_eq!(
        r.action,
        Some(Action::ReportPeer { peer_id: peer, reporting_service: String::from("consensus") })
    );
}

#[test]
fn interleaved_commands_get_independent_replies() {
    // Commands are served one iteration at a time; each query's reply is a
    // function of that query and its own engine answer, untouched by the
    // broadcasts served between them.
    for round in 0u8..5 {
        let ids = vec![vec![round], vec![round, round]];
        let r = handle_command(TaskRequest::GetPeerIds, EngineAnswer::PeerIds(ids.clone()));
        assert_eq!(r.action, Some(Action::ReplyPeerIds(ids)));

        let r = handle_command(
            TaskRequest::BroadcastTransaction(vec![round]),
            EngineAnswer::Nothing,
        );
        assert_eq!(r.action, Some(Action::PublishTransaction(vec![round])));
    }
}

#[test]
fn importer_height_then_select_peer_scenario() {
    // The importer emits height 100: the actor advertises it to the network.
    let s = handle_height_update(Some(100));
    assert_eq!(s.action, Some(Action::UpdateBlockHeight(100)));
    assert_eq!(s.outcome, TaskOutcome::Continue);

    // A subsequent peer-selection command resolves to whatever peer the
    // peer manager reports at or above that height.
    let peer = valid_peer_bytes();
    let s = step(
        TaskInput::Command(TaskRequest::SelectPeer { block_height: 100 }),
        EngineAnswer::Peer(Some(peer.clone())),
        None,
        10,
    );
    assert_eq!(s.action, Some(Action::ReplySelectedPeer(Some(peer))));

    // Or to nothing, if no such peer is known.
    let s = step(
        TaskInput::Command(TaskRequest::SelectPeer { block_height: 100 }),
        EngineAnswer::Peer(None),
        None,
        10,
    );
    assert_eq!(s.action, Some(Action::ReplySelectedPeer(None)));
}

#[test]
fn command_query_names_the_lookup_each_command_needs() {
    assert_eq!(command_query(&TaskRequest::GetPeerIds), EngineQuery::PeerIds);
    assert_eq!(
        command_query(&TaskRequest::GetBlock { height: 9 }),
        EngineQuery::PeerWithHeight(9)
    );
    assert_eq!(
        command_query(&TaskRequest::SelectPeer { block_height: 3 }),
        EngineQuery::PeerWithHeight(3)
    );
    assert_eq!(
        command_query(&TaskRequest::BroadcastTransaction(vec![1])),
        EngineQuery::Nothing
    );
}

#[test]
fn heartbeat_event_is_rebroadcast() {
    let r = handle_network_event(
        NetworkEvent::PeerInfoUpdated { peer_id: vec![1, 2], block_height: 55 },
        None,
        10,
    );
    assert_eq!(
        r.action,
        Some(Action::BroadcastHeartbeat(BlockHeightHeartbeatData {
            peer_id: vec![1, 2],
            block_height: 55,
        }))
    );
    assert_eq!(r.outcome, TaskOutcome::Continue);
}

#[test]
fn gossiped_transaction_keeps_its_provenance() {
    let r = handle_network_event(
        NetworkEvent::GossipsubMessage {
            message: GossipsubMessage::NewTx(vec![9, 9, 9]),
            message_id: vec![4],
            peer_id: vec![5, 6],
        },
        None,
        10,
    );
    assert_eq!(
        r.action,
        Some(Action::BroadcastTransactionGossip(GossipData {
            data: vec![9, 9, 9],
            peer_id: vec![5, 6],
            message_id: vec![4],
        }))
    );
}

#[test]
fn gossiped_blocks_and_votes_are_not_relayed() {
    for message in [
        GossipsubMessage::NewBlock(vec![1]),
        GossipsubMessage::ConsensusVote(vec![2]),
    ] {
        let r = handle_network_event(
            NetworkEvent::GossipsubMessage { message, message_id: vec![4], peer_id: vec![5] },
            None,
            10,
        );
        assert_eq!(r.action, None);
        assert_eq!(r.outcome, TaskOutcome::Continue);
    }
}

#[test]
fn responder_serves_a_block_from_storage() {
    let ev = NetworkEvent::RequestMessage { request: RequestMessage::Block(7), request_id: 1 };
    assert_eq!(event_storage_query(&ev, 10), Some(StorageQuery::SealedBlock(7)));
    let r = handle_network_event(ev, Some(StorageAnswer::Block(Some(vec![1, 2]))), 10);
    assert_eq!(
        r.action,
        Some(Action::SendResponse {
            request_id: 1,
            response: OutboundResponse::Block(Some(vec![1, 2])),
        })
    );
    assert_eq!(r.outcome, TaskOutcome::Continue);
}

#[test]
fn responder_storage_failure_is_fatal_but_still_answers() {
    let ev = NetworkEvent::RequestMessage { request: RequestMessage::Block(7), request_id: 1 };
    let r = handle_network_event(ev, Some(StorageAnswer::Failed), 10);
    assert_eq!(
        r.action,
        Some(Action::SendResponse { request_id: 1, response: OutboundResponse::Block(None) })
    );
    assert_eq!(r.outcome, TaskOutcome::Fatal);
}

#[test]
fn responder_serves_transactions_from_storage() {
    let ev = NetworkEvent::RequestMessage {
        request: RequestMessage::Transactions([3u8; 32]),
        request_id: 2,
    };
    assert_eq!(event_storage_query(&ev, 10), Some(StorageQuery::Transactions([3u8; 32])));
    let r = handle_network_event(ev, Some(StorageAnswer::Transactions(Some(vec![vec![8]]))), 10);
    assert_eq!(
        r.action,
        Some(Action::SendResponse {
            request_id: 2,
            response: OutboundResponse::Transactions(Some(vec![vec![8]])),
        })
    );
}

#[test]
fn responder_answers_oversized_header_ranges_without_storage() {
    let ev = NetworkEvent::RequestMessage {
        request: RequestMessage::SealedHeaders(HeightRange { start: 0, end: 11 }),
        request_id: 3,
    };
    // No storage lookup is even named for the oversized range.
    assert_eq!(event_storage_query(&ev, 10), None);
    let r = handle_network_event(ev, None, 10);
    assert_eq!(
        r.action,
        Some(Action::SendResponse {
            request_id: 3,
            response: OutboundResponse::SealedHeaders(None),
        })
    );
    assert_eq!(r.outcome, TaskOutcome::Continue);
}

#[test]
fn responder_serves_header_ranges_within_the_maximum() {
    let range = HeightRange { start: 0, end: 10 };
    let ev = NetworkEvent::RequestMessage {
        request: RequestMessage::SealedHeaders(range),
        request_id: 3,
    };
    assert_eq!(event_storage_query(&ev, 10), Some(StorageQuery::SealedHeaders(range)));
    let headers = vec![vec![1u8], vec![2u8]];
    let r = handle_network_event(ev, Some(StorageAnswer::SealedHeaders(headers.clone())), 10);
    assert_eq!(
        r.action,
        Some(Action::SendResponse {
            request_id: 3,
            response: OutboundResponse::SealedHeaders(Some(headers)),
        })
    );
}

#[test]
fn responder_rejects_the_unsupported_transactions_variant() {
    let ev = NetworkEvent::RequestMessage {
        request: RequestMessage::Transactions2(vec![[1u8; 32]]),
        request_id: 4,
    };
    assert_eq!(event_storage_query(&ev, 10), None);
    let r = handle_network_event(ev, None, 10);
    assert_eq!(
        r.action,
        Some(Action::SendResponse {
            request_id: 4,
            response: OutboundResponse::Transactions(None),
        })
    );
    assert_eq!(r.outcome, TaskOutcome::Continue);
    assert_eq!(r.rejected, Some(RejectedRequest::UnsupportedTransactions2 { request_id: 4 }));
}

#[test]
fn unrecognized_events_are_ignored() {
    let r = handle_network_event(NetworkEvent::Other, None, 10);
    assert_eq!(r.action, None);
    assert_eq!(r.outcome, TaskOutcome::Continue);
}

#[test]
fn shutdown_stops_the_loop_cleanly() {
    let r = step(TaskInput::Shutdown, EngineAnswer::Nothing, None, 10);
    assert_eq!(r.action, None);
    assert_eq!(r.outcome, TaskOutcome::Stop);
    assert_eq!(r.rejected, None);
}

#[test]
fn exhausted_height_stream_stops_the_loop() {
    let r = step(TaskInput::ImportedHeight(None), EngineAnswer::Nothing, None, 10);
    assert_eq!(r.action, None);
    assert_eq!(r.outcome, TaskOutcome::Stop);
}
