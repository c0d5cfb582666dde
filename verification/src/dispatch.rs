//! What the client does with each received APDU, and the short PDUs it
//! answers with.
//!
//! Terminal PDUs that arrive while a segmented response is being reassembled
//! abort that reassembly; Abort and SegmentACK PDUs that a client sent
//! (`server` = FALSE) are never taken for a server's; inbound confirmed
//! requests other than the notifications a client accepts are rejected.

use vstd::prelude::*;

use crate::model::{
    NpduAddress, ABORT_INVALID_APDU_IN_THIS_STATE, ABORT_SEGMENTATION_NOT_SUPPORTED,
    REJECT_UNRECOGNIZED_SERVICE,
};

verus! {

/// Confirmed service choice: ConfirmedCOVNotification.
pub const SERVICE_CONFIRMED_COV_NOTIFICATION: u8 = 1;
/// Confirmed service choice: ConfirmedEventNotification.
pub const SERVICE_CONFIRMED_EVENT_NOTIFICATION: u8 = 2;
/// Unconfirmed service choice: I-Am.
pub const SERVICE_I_AM: u8 = 0;
/// Unconfirmed service choice: UnconfirmedCOVNotification.
pub const SERVICE_UNCONFIRMED_COV_NOTIFICATION: u8 = 2;
/// Unconfirmed service choice: UnconfirmedEventNotification.
pub const SERVICE_UNCONFIRMED_EVENT_NOTIFICATION: u8 = 3;

/// The fields of a received APDU that dispatch decides on.
pub enum InboundApdu {
    SimpleAck { invoke_id: u8, service_choice: u8 },
    ComplexAck { invoke_id: u8, segmented: bool, service_choice: u8 },
    Error { invoke_id: u8, error_class: u32, error_code: u32 },
    Reject { invoke_id: u8, reason: u8 },
    Abort { invoke_id: u8, reason: u8, sent_by_server: bool },
    ConfirmedRequest { invoke_id: u8, segmented: bool, service_choice: u8 },
    UnconfirmedRequest { service_choice: u8 },
    SegmentAck { invoke_id: u8, sent_by_server: bool },
}

/// The response a terminal PDU carries to its transaction.
#[derive(Debug, PartialEq, Eq, Structural)]
pub enum TerminalKind {
    SimpleAck,
    ComplexAck,
    Error { class: u32, code: u32 },
    Reject { reason: u8 },
    Abort { reason: u8 },
}

/// What dispatch does with a received APDU.
#[derive(Debug, PartialEq, Eq, Structural)]
pub enum DispatchAction {
    /// End the reassembly under way for this invoke ID: Abort toward the
    /// peer (`server` = FALSE) and ABORT.indication to the caller.
    AbortReassembly { invoke_id: u8, reason: u8 },
    /// Offer the PDU as its transaction's terminal response; `phase_gate`
    /// says whether the transaction's phase must admit it.
    Terminal { invoke_id: u8, kind: TerminalKind, phase_gate: bool },
    /// Hand a segment of a segmented ComplexACK to reassembly.
    ReassembleSegment { invoke_id: u8 },
    /// Answer with a BACnet-Abort-PDU, `server` = TRUE.
    ServerAbort { invoke_id: u8, reason: u8 },
    /// Answer with a BACnet-Reject-PDU.
    RejectRequest { invoke_id: u8, reason: u8 },
    /// Decode a ConfirmedCOVNotification and answer as the ack policy says.
    ConfirmedCovNotification { invoke_id: u8, service_choice: u8 },
    /// Decode a ConfirmedEventNotification and acknowledge or reject it.
    ConfirmedEventNotification { invoke_id: u8, service_choice: u8 },
    /// Decode an I-Am and update the device table.
    IAm,
    /// Decode and publish an UnconfirmedCOVNotification.
    UnconfirmedCovNotification,
    /// Decode and publish an UnconfirmedEventNotification.
    UnconfirmedEventNotification,
    /// A server's SegmentACK for a segmented request this client may be
    /// sending.
    RouteSegmentAck { invoke_id: u8 },
    /// Drop the PDU.
    Ignore,
}

/// Decide what to do with `apdu`, given whether it arrived group-addressed
/// and whether a reassembly of a current transaction is under way for its
/// invoke ID from the same peer.
pub fn dispatch_action(apdu: &InboundApdu, is_group: bool, reassembly_current: bool) -> (r:
    DispatchAction)
    ensures
        r == match *apdu {
            InboundApdu::SimpleAck { invoke_id, .. } => if reassembly_current {
                DispatchAction::AbortReassembly { invoke_id, reason: ABORT_INVALID_APDU_IN_THIS_STATE }
            } else {
                DispatchAction::Terminal { invoke_id, kind: TerminalKind::SimpleAck, phase_gate: true }
            },
            InboundApdu::ComplexAck { invoke_id, segmented, .. } => if segmented {
                DispatchAction::ReassembleSegment { invoke_id }
            } else if reassembly_current {
                DispatchAction::AbortReassembly { invoke_id, reason: ABORT_INVALID_APDU_IN_THIS_STATE }
            } else {
                DispatchAction::Terminal { invoke_id, kind: TerminalKind::ComplexAck, phase_gate: true }
            },
            InboundApdu::Error { invoke_id, error_class, error_code } => if reassembly_current {
                DispatchAction::AbortReassembly { invoke_id, reason: ABORT_INVALID_APDU_IN_THIS_STATE }
            } else {
                DispatchAction::Terminal {
                    invoke_id,
                    kind: TerminalKind::Error { class: error_class, code: error_code },
                    phase_gate: true,
                }
            },
            InboundApdu::Reject { invoke_id, reason } => if reassembly_current {
                DispatchAction::AbortReassembly { invoke_id, reason: ABORT_INVALID_APDU_IN_THIS_STATE }
            } else {
                DispatchAction::Terminal {
                    invoke_id,
                    kind: TerminalKind::Reject { reason },
                    phase_gate: false,
                }
            },
            InboundApdu::Abort { invoke_id, reason, sent_by_server } => if sent_by_server {
                DispatchAction::Terminal {
                    invoke_id,
                    kind: TerminalKind::Abort { reason },
                    phase_gate: false,
                }
            } else {
                DispatchAction::Ignore
            },
            InboundApdu::ConfirmedRequest { invoke_id, segmented, service_choice } => if is_group {
                DispatchAction::Ignore
            } else if segmented {
                DispatchAction::ServerAbort { invoke_id, reason: ABORT_SEGMENTATION_NOT_SUPPORTED }
            } else if service_choice == SERVICE_CONFIRMED_COV_NOTIFICATION {
                DispatchAction::ConfirmedCovNotification { invoke_id, service_choice }
            } else if service_choice == SERVICE_CONFIRMED_EVENT_NOTIFICATION {
                DispatchAction::ConfirmedEventNotification { invoke_id, service_choice }
            } else {
                DispatchAction::RejectRequest { invoke_id, reason: REJECT_UNRECOGNIZED_SERVICE }
            },
            InboundApdu::UnconfirmedRequest { service_choice } => if service_choice
                == SERVICE_I_AM {
                DispatchAction::IAm
            } else if service_choice == SERVICE_UNCONFIRMED_COV_NOTIFICATION {
                DispatchAction::UnconfirmedCovNotification
            } else if service_choice == SERVICE_UNCONFIRMED_EVENT_NOTIFICATION {
                DispatchAction::UnconfirmedEventNotification
            } else {
                DispatchAction::Ignore
            },
            InboundApdu::SegmentAck { invoke_id, sent_by_server } => if !sent_by_server {
                DispatchAction::Ignore
            } else if reassembly_current {
                DispatchAction::AbortReassembly { invoke_id, reason: ABORT_INVALID_APDU_IN_THIS_STATE }
            } else {
                DispatchAction::RouteSegmentAck { invoke_id }
            },
        },
{
    match apdu {
        InboundApdu::SimpleAck { invoke_id, .. } => {
            if reassembly_current {
                DispatchAction::AbortReassembly {
                    invoke_id: *invoke_id,
                    reason: ABORT_INVALID_APDU_IN_THIS_STATE,
                }
            } else {
                DispatchAction::Terminal {
                    invoke_id: *invoke_id,
                    kind: TerminalKind::SimpleAck,
                    phase_gate: true,
                }
            }
        },
        InboundApdu::ComplexAck { invoke_id, segmented, .. } => {
            if *segmented {
                DispatchAction::ReassembleSegment { invoke_id: *invoke_id }
            } else if reassembly_current {
                DispatchAction::AbortReassembly {
                    invoke_id: *invoke_id,
                    reason: ABORT_INVALID_APDU_IN_THIS_STATE,
                }
            } else {
                DispatchAction::Terminal {
                    invoke_id: *invoke_id,
                    kind: TerminalKind::ComplexAck,
                    phase_gate: true,
                }
            }
        },
        InboundApdu::Error { invoke_id, error_class, error_code } => {
            if reassembly_current {
                DispatchAction::AbortReassembly {
                    invoke_id: *invoke_id,
                    reason: ABORT_INVALID_APDU_IN_THIS_STATE,
                }
            } else {
                DispatchAction::Terminal {
                    invoke_id: *invoke_id,
                    kind: TerminalKind::Error { class: *error_class, code: *error_code },
                    phase_gate: true,
                }
            }
        },
        InboundApdu::Reject { invoke_id, reason } => {
            if reassembly_current {
                DispatchAction::AbortReassembly {
                    invoke_id: *invoke_id,
                    reason: ABORT_INVALID_APDU_IN_THIS_STATE,
                }
            } else {
                DispatchAction::Terminal {
                    invoke_id: *invoke_id,
                    kind: TerminalKind::Reject { reason: *reason },
                    phase_gate: false,
                }
            }
        },
        InboundApdu::Abort { invoke_id, reason, sent_by_server } => {
            if *sent_by_server {
                DispatchAction::Terminal {
                    invoke_id: *invoke_id,
                    kind: TerminalKind::Abort { reason: *reason },
                    phase_gate: false,
                }
            } else {
                DispatchAction::Ignore
            }
        },
        InboundApdu::ConfirmedRequest { invoke_id, segmented, service_choice } => {
            if is_group {
                DispatchAction::Ignore
            } else if *segmented {
                DispatchAction::ServerAbort {
                    invoke_id: *invoke_id,
                    reason: ABORT_SEGMENTATION_NOT_SUPPORTED,
                }
            } else if *service_choice == SERVICE_CONFIRMED_COV_NOTIFICATION {
                DispatchAction::ConfirmedCovNotification {
                    invoke_id: *invoke_id,
                    service_choice: *service_choice,
                }
            } else if *service_choice == SERVICE_CONFIRMED_EVENT_NOTIFICATION {
                DispatchAction::ConfirmedEventNotification {
                    invoke_id: *invoke_id,
                    service_choice: *service_choice,
                }
            } else {
                DispatchAction::RejectRequest {
                    invoke_id: *invoke_id,
                    reason: REJECT_UNRECOGNIZED_SERVICE,
                }
            }
        },
        InboundApdu::UnconfirmedRequest { service_choice } => {
            if *service_choice == SERVICE_I_AM {
                DispatchAction::IAm
            } else if *service_choice == SERVICE_UNCONFIRMED_COV_NOTIFICATION {
                DispatchAction::UnconfirmedCovNotification
            } else if *service_choice == SERVICE_UNCONFIRMED_EVENT_NOTIFICATION {
                DispatchAction::UnconfirmedEventNotification
            } else {
                DispatchAction::Ignore
            }
        },
        InboundApdu::SegmentAck { invoke_id, sent_by_server } => {
            if !*sent_by_server {
                DispatchAction::Ignore
            } else if reassembly_current {
                DispatchAction::AbortReassembly {
                    invoke_id: *invoke_id,
                    reason: ABORT_INVALID_APDU_IN_THIS_STATE,
                }
            } else {
                DispatchAction::RouteSegmentAck { invoke_id: *invoke_id }
            }
        },
    }
}

/// Whether a server's Abort ends the reassembly session kept under its
/// peer and invoke ID: once the Abort was delivered to its transaction as
/// that transaction's outcome, the session goes at once if it still belongs
/// to `reassembly_owner`, the transaction that held the reassembly when the
/// Abort arrived; no reply PDU is sent either way.
pub fn server_abort_ends_reassembly(
    delivered: bool,
    reassembly_owner: Option<u64>,
    session_owner: Option<u64>,
) -> (r: bool)
    ensures
        r == (delivered && reassembly_owner is Some && session_owner == reassembly_owner),
{
    match (reassembly_owner, session_owner) {
        (Some(owner), Some(current)) => delivered && owner == current,
        _ => false,
    }
}

/// Where a transaction stands for a server's SegmentACK.
pub enum SegmentAckPhase {
    /// This owner is sending a segmented request.
    SegmentedRequest { owner: u64 },
    /// A transaction is outstanding but not sending segments.
    Outstanding,
    /// The outbound coordinator refused the PDU.
    CoordinatorRejected,
    /// Nothing is outstanding.
    Idle,
}

/// What becomes of a server's SegmentACK.
#[derive(Debug, PartialEq, Eq, Structural)]
pub enum SegmentAckStep {
    /// Deliver it to the segmented send of its owner.
    Deliver,
    /// Discard it.
    Discard,
    /// Answer with an Abort, `server` = FALSE, INVALID_APDU_IN_THIS_STATE.
    ClientAbort { reason: u8 },
}

/// Route a server's SegmentACK by its transaction's phase; `route_owner` is
/// the owner of the registered SegmentACK route for the same key, if any.
pub fn segment_ack_step(phase: SegmentAckPhase, route_owner: Option<u64>) -> (r: SegmentAckStep)
    ensures
        r == match phase {
            SegmentAckPhase::SegmentedRequest { owner } => if route_owner == Some(owner) {
                SegmentAckStep::Deliver
            } else {
                SegmentAckStep::Discard
            },
            SegmentAckPhase::Idle => SegmentAckStep::ClientAbort {
                reason: ABORT_INVALID_APDU_IN_THIS_STATE,
            },
            _ => SegmentAckStep::Discard,
        },
{
    match phase {
        SegmentAckPhase::SegmentedRequest { owner } => {
            match route_owner {
                Some(o) if o == owner => SegmentAckStep::Deliver,
                _ => SegmentAckStep::Discard,
            }
        },
        SegmentAckPhase::Idle => SegmentAckStep::ClientAbort {
            reason: ABORT_INVALID_APDU_IN_THIS_STATE,
        },
        _ => SegmentAckStep::Discard,
    }
}

/// The DNET/DADR a reply must carry: the SNET/SADR of the PDU it answers,
/// when that names a remote station.
pub open spec fn reply_address(source_network: Option<NpduAddress>) -> Option<(u16, Seq<u8>)> {
    match source_network {
        Some(a) => if a.mac_address@.len() > 0 {
            Some((a.network, a.mac_address@))
        } else {
            None
        },
        None => None,
    }
}

/// The routing half of a reply's address (see [`reply_address`]).
pub fn reply_route(source_network: &Option<NpduAddress>) -> (r: Option<(u16, Vec<u8>)>)
    ensures
        match r {
            Some((n, m)) => reply_address(*source_network) == Some((n, m@)),
            None => reply_address(*source_network) is None,
        },
{
    match source_network {
        Some(a) => if a.mac_address.len() > 0 {
            Some((a.network, a.mac_address.clone()))
        } else {
            None
        },
        None => None,
    }
}

/// BACnet-SimpleACK-PDU.
pub fn encode_simple_ack(invoke_id: u8, service_choice: u8) -> (r: Vec<u8>)
    ensures
        r@ == seq![0x20u8, invoke_id, service_choice],
{
    vec![0x20u8, invoke_id, service_choice]
}

/// BACnet-Reject-PDU.
pub fn encode_reject(invoke_id: u8, reason: u8) -> (r: Vec<u8>)
    ensures
        r@ == seq![0x60u8, invoke_id, reason],
{
    vec![0x60u8, invoke_id, reason]
}

/// BACnet-Abort-PDU; the low bit of the first octet is the `server` flag.
pub fn encode_abort(sent_by_server: bool, invoke_id: u8, reason: u8) -> (r: Vec<u8>)
    ensures
        r@ == seq![if sent_by_server { 0x71u8 } else { 0x70u8 }, invoke_id, reason],
{
    let first: u8 = if sent_by_server { 0x71 } else { 0x70 };
    vec![first, invoke_id, reason]
}

/// BACnet-SegmentACK-PDU; bit 1 of the first octet is `negative-ack`, bit 0
/// the `server` flag.
pub fn encode_segment_ack(
    negative_ack: bool,
    sent_by_server: bool,
    invoke_id: u8,
    sequence_number: u8,
    actual_window_size: u8,
) -> (r: Vec<u8>)
    ensures
        r@ == seq![
            (0x40 + (if negative_ack { 2int } else { 0 }) + (if sent_by_server { 1int } else { 0 })) as u8,
            invoke_id,
            sequence_number,
            actual_window_size,
        ],
{
    let first: u8 = 0x40 + (if negative_ack { 2u8 } else { 0 }) + (if sent_by_server { 1u8 } else { 0 });
    vec![first, invoke_id, sequence_number, actual_window_size]
}

/// The answer to a ConfirmedEventNotification: a SimpleACK once it decoded,
/// otherwise a Reject, invalid-parameter-data-type.
pub fn event_notification_reply(decoded: bool, invoke_id: u8, service_choice: u8) -> (r: Vec<u8>)
    ensures
        decoded ==> r@ == seq![0x20u8, invoke_id, service_choice],
        !decoded ==> r@ == seq![0x60u8, invoke_id, crate::model::REJECT_INVALID_PARAMETER_DATA_TYPE],
{
    if decoded {
        encode_simple_ack(invoke_id, service_choice)
    } else {
        encode_reject(invoke_id, crate::model::REJECT_INVALID_PARAMETER_DATA_TYPE)
    }
}

/// What the client does with one unsegmented ConfirmedEventNotification:
/// the notification it publishes to event subscribers, then the APDU it
/// sends back.
pub struct ConfirmedEventNotificationOutcome<T> {
    /// The notification published once to subscribers; none when it did not
    /// decode.
    pub published: Option<T>,
    /// The APDU sent back, whether or not anyone subscribes.
    pub reply: Vec<u8>,
}

/// Handle a ConfirmedEventNotification whose service request decoded to
/// `decoded` (after the message-text tolerance): a decoded notification is
/// published once and acknowledged with a SimpleACK; otherwise nothing is
/// published and the request is rejected, invalid-parameter-data-type.
pub fn handle_confirmed_event_notification<T>(decoded: Option<T>, invoke_id: u8, service_choice: u8) -> (r:
    ConfirmedEventNotificationOutcome<T>)
    ensures
        r.published == decoded,
        decoded is Some ==> r.reply@ == seq![0x20u8, invoke_id, service_choice],
        decoded is None ==> r.reply@ == seq![
            0x60u8,
            invoke_id,
            crate::model::REJECT_INVALID_PARAMETER_DATA_TYPE,
        ],
{
    let reply = event_notification_reply(decoded.is_some(), invoke_id, service_choice);
    ConfirmedEventNotificationOutcome { published: decoded, reply }
}

} // verus!
