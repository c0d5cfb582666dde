use bacnet_client::dispatch::{
    dispatch_action, encode_abort, encode_reject, encode_segment_ack, encode_simple_ack,
    event_notification_reply, handle_confirmed_event_notification, reply_route, segment_ack_step,
    server_abort_ends_reassembly, DispatchAction, InboundApdu,
    SegmentAckPhase, SegmentAckStep, TerminalKind,
};
use bacnet_client::model::NpduAddress;

const INVOKE: u8 = 7;

#[test]
fn terminal_pdus_complete_their_transaction() {
    assert_eq!(
        dispatch_action(&InboundApdu::SimpleAck { invoke_id: INVOKE, service_choice: 15 }, false, false),
        DispatchAction::Terminal { invoke_id: INVOKE, kind: TerminalKind::SimpleAck, phase_gate: true }
    );
    assert_eq!(
        dispatch_action(
            &InboundApdu::Error { invoke_id: INVOKE, error_class: 2, error_code: 31 },
            false,
            false
        ),
        DispatchAction::Terminal {
            invoke_id: INVOKE,
            kind: TerminalKind::Error { class: 2, code: 31 },
            phase_gate: true
        }
    );
    assert_eq!(
        dispatch_action(&InboundApdu::Reject { invoke_id: INVOKE, reason: 9 }, false, false),
        DispatchAction::Terminal { invoke_id: INVOKE, kind: TerminalKind::Reject { reason: 9 }, phase_gate: false }
    );
}

#[test]
fn unexpected_pdus_abort_a_reassembly_in_progress() {
    for apdu in [
        InboundApdu::SimpleAck { invoke_id: INVOKE, service_choice: 12 },
        InboundApdu::ComplexAck { invoke_id: INVOKE, segmented: false, service_choice: 12 },
        InboundApdu::Error { invoke_id: INVOKE, error_class: 1, error_code: 1 },
        InboundApdu::Reject { invoke_id: INVOKE, reason: 1 },
        InboundApdu::SegmentAck { invoke_id: INVOKE, sent_by_server: true },
    ] {
        assert_eq!(
            dispatch_action(&apdu, false, true),
            DispatchAction::AbortReassembly { invoke_id: INVOKE, reason: 2 }
        );
    }
    assert_eq!(
        dispatch_action(&InboundApdu::ComplexAck { invoke_id: INVOKE, segmented: true, service_choice: 12 }, false, true),
        DispatchAction::ReassembleSegment { invoke_id: INVOKE }
    );
}

#[test]
fn client_originated_abort_and_segment_ack_are_ignored() {
    assert_eq!(
        dispatch_action(&InboundApdu::Abort { invoke_id: INVOKE, reason: 4, sent_by_server: false }, false, true),
        DispatchAction::Ignore
    );
    assert_eq!(
        dispatch_action(&InboundApdu::SegmentAck { invoke_id: INVOKE, sent_by_server: false }, false, true),
        DispatchAction::Ignore
    );
    assert_eq!(
        dispatch_action(&InboundApdu::Abort { invoke_id: INVOKE, reason: 4, sent_by_server: true }, false, true),
        DispatchAction::Terminal { invoke_id: INVOKE, kind: TerminalKind::Abort { reason: 4 }, phase_gate: false }
    );
    assert_eq!(
        dispatch_action(&InboundApdu::SegmentAck { invoke_id: INVOKE, sent_by_server: true }, false, false),
        DispatchAction::RouteSegmentAck { invoke_id: INVOKE }
    );
}

#[test]
fn inbound_confirmed_requests() {
    let cov = InboundApdu::ConfirmedRequest { invoke_id: INVOKE, segmented: false, service_choice: 1 };
    let event = InboundApdu::ConfirmedRequest { invoke_id: INVOKE, segmented: false, service_choice: 2 };
    let read = InboundApdu::ConfirmedRequest { invoke_id: INVOKE, segmented: false, service_choice: 12 };
    let segmented = InboundApdu::ConfirmedRequest { invoke_id: INVOKE, segmented: true, service_choice: 2 };
    assert_eq!(
        dispatch_action(&cov, false, false),
        DispatchAction::ConfirmedCovNotification { invoke_id: INVOKE, service_choice: 1 }
    );
    assert_eq!(
        dispatch_action(&event, false, false),
        DispatchAction::ConfirmedEventNotification { invoke_id: INVOKE, service_choice: 2 }
    );
    assert_eq!(
        dispatch_action(&read, false, false),
        DispatchAction::RejectRequest { invoke_id: INVOKE, reason: 9 }
    );
    assert_eq!(
        dispatch_action(&segmented, false, false),
        DispatchAction::ServerAbort { invoke_id: INVOKE, reason: 4 }
    );
    for apdu in [cov, event, read, segmented] {
        assert_eq!(dispatch_action(&apdu, true, false), DispatchAction::Ignore);
    }
}

#[test]
fn inbound_unconfirmed_requests() {
    assert_eq!(dispatch_action(&InboundApdu::UnconfirmedRequest { service_choice: 0 }, true, false), DispatchAction::IAm);
    assert_eq!(
        dispatch_action(&InboundApdu::UnconfirmedRequest { service_choice: 2 }, false, false),
        DispatchAction::UnconfirmedCovNotification
    );
    assert_eq!(
        dispatch_action(&InboundApdu::UnconfirmedRequest { service_choice: 3 }, true, false),
        DispatchAction::UnconfirmedEventNotification
    );
    assert_eq!(dispatch_action(&InboundApdu::UnconfirmedRequest { service_choice: 8 }, false, false), DispatchAction::Ignore);
}

#[test]
fn reply_pdus_have_their_wire_form() {
    assert_eq!(encode_simple_ack(INVOKE, 2), vec![0x20, INVOKE, 2]);
    assert_eq!(encode_reject(INVOKE, 3), vec![0x60, INVOKE, 3]);
    assert_eq!(encode_abort(true, INVOKE, 4), vec![0x71, INVOKE, 4]);
    assert_eq!(encode_abort(false, INVOKE, 2), vec![0x70, INVOKE, 2]);
    assert_eq!(encode_segment_ack(false, false, INVOKE, 5, 2), vec![0x40, INVOKE, 5, 2]);
    assert_eq!(encode_segment_ack(true, false, INVOKE, 5, 2), vec![0x42, INVOKE, 5, 2]);
    assert_eq!(encode_segment_ack(true, true, INVOKE, 5, 2), vec![0x43, INVOKE, 5, 2]);
    assert_eq!(event_notification_reply(true, INVOKE, 2), vec![0x20, INVOKE, 2]);
    assert_eq!(event_notification_reply(false, INVOKE, 2), vec![0x60, INVOKE, 3]);
}

#[test]
fn replies_to_routed_peers_carry_their_source_as_destination() {
    assert_eq!(reply_route(&None), None);
    let empty = Some(NpduAddress { network: 5, mac_address: vec![] });
    assert_eq!(reply_route(&empty), None);
    let remote = Some(NpduAddress { network: 5, mac_address: vec![0x0A, 0x0B] });
    assert_eq!(reply_route(&remote), Some((5, vec![0x0A, 0x0B])));
}

#[test]
fn server_segment_acks_route_by_phase() {
    assert_eq!(segment_ack_step(SegmentAckPhase::SegmentedRequest { owner: 3 }, Some(3)), SegmentAckStep::Deliver);
    assert_eq!(segment_ack_step(SegmentAckPhase::SegmentedRequest { owner: 3 }, Some(4)), SegmentAckStep::Discard);
    assert_eq!(segment_ack_step(SegmentAckPhase::SegmentedRequest { owner: 3 }, None), SegmentAckStep::Discard);
    assert_eq!(segment_ack_step(SegmentAckPhase::Outstanding, Some(3)), SegmentAckStep::Discard);
    assert_eq!(segment_ack_step(SegmentAckPhase::CoordinatorRejected, None), SegmentAckStep::Discard);
    assert_eq!(segment_ack_step(SegmentAckPhase::Idle, None), SegmentAckStep::ClientAbort { reason: 2 });
}

#[test]
fn confirmed_event_notification_is_published_once_then_acknowledged() {
    let decoded = handle_confirmed_event_notification(Some("event"), INVOKE, 2);
    assert_eq!(decoded.published, Some("event"));
    assert_eq!(decoded.reply, vec![0x20, INVOKE, 2]);
    let undecodable = handle_confirmed_event_notification::<&str>(None, INVOKE, 2);
    assert_eq!(undecodable.published, None);
    assert_eq!(undecodable.reply, vec![0x60, INVOKE, 3]);
}

#[test]
fn delivered_server_abort_frees_its_reassembly_session() {
    assert!(server_abort_ends_reassembly(true, Some(4), Some(4)));
    assert!(!server_abort_ends_reassembly(false, Some(4), Some(4)));
    assert!(!server_abort_ends_reassembly(true, Some(4), Some(5)));
    assert!(!server_abort_ends_reassembly(true, None, Some(4)));
    assert!(!server_abort_ends_reassembly(true, Some(4), None));
}
