use bacnet_client::config::ClientConfig;
use bacnet_client::error::Error;
use bacnet_client::segmentation::{
    admit_segment, ReassemblyStep, ReplyTarget, duplicate_in_window, max_segment_payload, split_payload, ResponseLimits,
    SegmentAdmission, SegmentDisposition, SegmentedPduType, SegmentedReceiveState,
    SEG_RECEIVER_TIMEOUT_MS, SEQUENCE_NUMBER_SPACE,
};
use bacnet_client::segmented_send::{plan_segments, segment_header, AckEvent, SegmentedSend, SendStep};

#[test]
fn seg_receiver_timeout_is_4s() {
    assert_eq!(SEG_RECEIVER_TIMEOUT_MS, 4_000);
}

#[test]
fn segment_payload_leaves_room_for_the_segmented_header() {
    assert_eq!(max_segment_payload(480, SegmentedPduType::ConfirmedRequest), 474);
    assert_eq!(max_segment_payload(480, SegmentedPduType::ComplexAck), 475);
    assert_eq!(max_segment_payload(4, SegmentedPduType::ComplexAck), 0);
}

#[test]
fn split_payload_cuts_full_segments_and_a_short_tail() {
    let data: Vec<u8> = (0..10u8).collect();
    let segments = split_payload(&data, 4).unwrap();
    assert_eq!(segments, vec![vec![0, 1, 2, 3], vec![4, 5, 6, 7], vec![8, 9]]);
    let joined: Vec<u8> = segments.concat();
    assert_eq!(joined, data);
    assert_eq!(split_payload(&[], 4).unwrap(), vec![Vec::<u8>::new()]);
    assert!(matches!(split_payload(&data, 0), Err(Error::Segmentation(_))));
}

#[test]
fn split_payload_stops_at_the_sequence_space() {
    let exactly = vec![7u8; 256];
    assert_eq!(split_payload(&exactly, 1).unwrap().len(), SEQUENCE_NUMBER_SPACE);
    let too_many = vec![7u8; 257];
    assert!(matches!(split_payload(&too_many, 1), Err(Error::Segmentation(_))));
}

#[test]
fn plan_segments_checks_the_peer_segment_limit() {
    let data = vec![1u8; 20];
    // 16-octet APDU: 10 octets per segment
    assert_eq!(plan_segments(&data, 16, Some(2)).unwrap().len(), 2);
    let e = plan_segments(&data, 16, Some(1)).unwrap_err();
    assert_eq!(e.message(), "request requires 2 segments but remote accepts at most 1");
    assert!(matches!(plan_segments(&data, 6, None), Err(Error::Segmentation(_))));
}

#[test]
fn response_limits_follow_the_advertised_rung() {
    let mut config = ClientConfig::default();
    let limits = ResponseLimits::from_config(&config);
    assert!(limits.segmented_response_accepted);
    assert_eq!(limits.max_reassembly_segments, 256);
    config.max_segments = Some(5);
    assert_eq!(ResponseLimits::from_config(&config).max_reassembly_segments, 4);
    config.max_segments = Some(64);
    assert_eq!(ResponseLimits::from_config(&config).max_reassembly_segments, 64);
    config.max_segments = Some(65);
    assert_eq!(ResponseLimits::from_config(&config).max_reassembly_segments, 256);
    config.segmented_response_accepted = false;
    assert!(!ResponseLimits::from_config(&config).segmented_response_accepted);
}

#[test]
fn duplicates_are_recognized_modulo_256() {
    assert!(duplicate_in_window(3, 2, 5));
    assert!(duplicate_in_window(2, 2, 5));
    assert!(!duplicate_in_window(6, 2, 5));
    assert!(duplicate_in_window(1, 250, 3));
    assert!(duplicate_in_window(255, 250, 3));
    assert!(!duplicate_in_window(4, 250, 3));
}

#[test]
fn segment_admission_order() {
    assert_eq!(admit_segment(false, false, false, 100), SegmentAdmission::RefuseUnsupported);
    assert_eq!(admit_segment(true, false, true, 0), SegmentAdmission::AbortNotPending);
    assert_eq!(admit_segment(true, true, false, 64), SegmentAdmission::DropNoSlot);
    assert_eq!(admit_segment(true, true, true, 64), SegmentAdmission::Proceed);
    assert_eq!(admit_segment(true, true, false, 63), SegmentAdmission::Proceed);
}

fn limits(max: usize) -> ResponseLimits {
    ResponseLimits { segmented_response_accepted: true, max_reassembly_segments: max }
}

#[test]
fn in_order_segments_reassemble_with_per_window_acks() {
    let mut state = SegmentedReceiveState::new(1, vec![9], None, Some(2), 0);
    let l = limits(256);
    assert!(matches!(
        state.receive(0, true, vec![1, 2], true, l, 1),
        SegmentDisposition::Stored { ack: false, sequence_number: 0, actual_window_size: 2 }
    ));
    assert!(matches!(
        state.receive(1, true, vec![3], true, l, 2),
        SegmentDisposition::Stored { ack: true, sequence_number: 1, actual_window_size: 2 }
    ));
    match state.receive(2, false, vec![4, 5], true, l, 3) {
        SegmentDisposition::Completed { sequence_number, actual_window_size, payload } => {
            assert_eq!(sequence_number, 2);
            assert_eq!(actual_window_size, 2);
            assert_eq!(payload, vec![1, 2, 3, 4, 5]);
        }
        other => panic!("expected completion, got {other:?}"),
    }
    assert_eq!(state.last_activity_ms, 3);
}

#[test]
fn duplicates_are_discarded_then_negatively_acknowledged() {
    let mut state = SegmentedReceiveState::new(1, vec![9], None, Some(2), 0);
    let l = limits(256);
    assert!(matches!(state.receive(0, true, vec![1], true, l, 0), SegmentDisposition::Stored { .. }));
    assert!(matches!(state.receive(1, true, vec![2], true, l, 0), SegmentDisposition::Stored { ack: true, .. }));
    // the window 0..=1 was acknowledged; a repeat of segment 1 is a duplicate
    assert!(matches!(state.receive(1, true, vec![2], true, l, 0), SegmentDisposition::DuplicateDiscarded));
    assert!(matches!(state.receive(1, true, vec![2], true, l, 0), SegmentDisposition::DuplicateDiscarded));
    assert!(matches!(
        state.receive(1, true, vec![2], true, l, 0),
        SegmentDisposition::NegativeAck { sequence_number: 1, actual_window_size: 2 }
    ));
    assert_eq!(state.accepted_segments(), 2);
}

#[test]
fn a_gap_draws_a_negative_ack_for_the_last_in_order_segment() {
    let mut state = SegmentedReceiveState::new(1, vec![9], None, None, 0);
    let l = limits(256);
    assert!(matches!(
        state.receive(3, true, vec![1], true, l, 0),
        SegmentDisposition::NegativeAck { sequence_number: 0, actual_window_size: 1 }
    ));
    assert_eq!(state.accepted_segments(), 0);
    assert!(matches!(state.receive(0, true, vec![1], true, l, 0), SegmentDisposition::Stored { ack: true, .. }));
    assert!(matches!(
        state.receive(5, true, vec![1], true, l, 0),
        SegmentDisposition::NegativeAck { sequence_number: 0, actual_window_size: 1 }
    ));
}

#[test]
fn exactly_256_segments_reassemble_and_the_257th_overflows() {
    let l = limits(256);
    let mut state = SegmentedReceiveState::new(1, vec![9], None, Some(127), 0);
    for i in 0..255u32 {
        let seq = (i % 256) as u8;
        assert!(matches!(state.receive(seq, true, vec![seq], true, l, 0), SegmentDisposition::Stored { .. }));
    }
    match state.receive(255, false, vec![255], true, l, 0) {
        SegmentDisposition::Completed { payload, .. } => {
            assert_eq!(payload.len(), 256);
            assert_eq!(payload[200], 200);
        }
        other => panic!("expected completion, got {other:?}"),
    }

    let mut state = SegmentedReceiveState::new(1, vec![9], None, Some(127), 0);
    for i in 0..256u32 {
        let seq = (i % 256) as u8;
        assert!(matches!(state.receive(seq, true, vec![seq], true, l, 0), SegmentDisposition::Stored { .. }));
    }
    assert!(matches!(state.receive(0, true, vec![0], true, l, 0), SegmentDisposition::AbortOverflow));
}

#[test]
fn advertised_segment_limit_bounds_reassembly() {
    let l = limits(2);
    let mut state = SegmentedReceiveState::new(1, vec![9], None, None, 0);
    assert!(matches!(state.receive(0, true, vec![0], true, l, 0), SegmentDisposition::Stored { .. }));
    assert!(matches!(state.receive(1, true, vec![1], true, l, 0), SegmentDisposition::Stored { .. }));
    assert!(matches!(state.receive(2, false, vec![2], true, l, 0), SegmentDisposition::AbortOverflow));
}

#[test]
fn stale_transaction_aborts_the_reassembly() {
    let l = limits(256);
    let mut state = SegmentedReceiveState::new(1, vec![9], None, None, 0);
    assert!(matches!(state.receive(0, true, vec![0], false, l, 0), SegmentDisposition::AbortStale));
    assert!(matches!(state.receive(0, true, vec![0], true, l, 0), SegmentDisposition::Stored { .. }));
    assert!(matches!(state.receive(1, true, vec![1], false, l, 0), SegmentDisposition::AbortStale));
}

#[test]
fn windowed_send_advances_on_in_window_acks() {
    let mut send = SegmentedSend::new(5, 2, 3, 6000);
    assert!(matches!(send.open_window(), SendStep::SendWindow { start: 0, end: 2 }));
    // an ack outside the window is ignored
    assert!(matches!(
        send.on_event(AckEvent::Ack { sequence_number: 4, negative: false, actual_window_size: 2 }),
        SendStep::KeepWaiting
    ));
    assert!(matches!(
        send.on_event(AckEvent::Ack { sequence_number: 1, negative: false, actual_window_size: 3 }),
        SendStep::SendWindow { start: 2, end: 5 }
    ));
    // a negative ack for segment 2 resumes after it
    assert!(matches!(
        send.on_event(AckEvent::Ack { sequence_number: 2, negative: true, actual_window_size: 0 }),
        SendStep::SendWindow { start: 3, end: 4 }
    ));
    assert_eq!(send.neg_ack_retries, 1);
    assert!(matches!(
        send.on_event(AckEvent::Ack { sequence_number: 3, negative: false, actual_window_size: 4 }),
        SendStep::SendWindow { start: 4, end: 5 }
    ));
    assert_eq!(send.neg_ack_retries, 0);
    assert!(matches!(
        send.on_event(AckEvent::Ack { sequence_number: 4, negative: false, actual_window_size: 4 }),
        SendStep::AwaitResponse
    ));
}

#[test]
fn windowed_send_retransmits_then_times_out() {
    let mut send = SegmentedSend::new(3, 0, 2, 500);
    assert_eq!(send.window_size, 1);
    assert!(matches!(send.open_window(), SendStep::SendWindow { start: 0, end: 1 }));
    assert!(matches!(send.on_event(AckEvent::Timeout), SendStep::SendWindow { start: 0, end: 1 }));
    assert!(matches!(send.on_event(AckEvent::Timeout), SendStep::SendWindow { start: 0, end: 1 }));
    assert!(matches!(
        send.on_event(AckEvent::Timeout),
        SendStep::Failed(Error::Timeout { millis: 500 })
    ));
    assert!(matches!(send.on_event(AckEvent::Closed), SendStep::Failed(Error::Encoding(_))));
}

#[test]
fn windowed_send_gives_up_after_ten_negative_acks() {
    let mut send = SegmentedSend::new(200, 1, 3, 500);
    assert!(matches!(send.open_window(), SendStep::SendWindow { start: 0, end: 1 }));
    for i in 0..10u8 {
        assert!(matches!(
            send.on_event(AckEvent::Ack { sequence_number: i, negative: true, actual_window_size: 1 }),
            SendStep::SendWindow { .. }
        ));
    }
    assert!(matches!(
        send.on_event(AckEvent::Ack { sequence_number: 10, negative: true, actual_window_size: 1 }),
        SendStep::Failed(Error::Segmentation(_))
    ));
}

#[test]
fn segmented_request_frames_are_numbered_with_more_follows_before_the_last() {
    let data: Vec<u8> = (0..1000u32).map(|i| (i % 251) as u8).collect();
    let segments = plan_segments(&data, 206, None).unwrap();
    assert_eq!(segments.len(), 5);
    let mut rebuilt = Vec::new();
    for (i, segment) in segments.iter().enumerate() {
        let header = segment_header(i, segments.len(), 0);
        assert_eq!(header.sequence_number as usize, i);
        assert_eq!(header.more_follows, i < segments.len() - 1);
        assert_eq!(header.proposed_window_size, 1);
        assert!(segment.len() + 6 <= 206);
        rebuilt.extend_from_slice(segment);
    }
    assert_eq!(rebuilt, data);
    let last = segment_header(255, 256, 16);
    assert_eq!(last.sequence_number, 255);
    assert!(!last.more_follows);
    assert_eq!(last.proposed_window_size, 16);
}

#[test]
fn segment_replies_follow_the_reassembly_rules() {
    let limits = ResponseLimits { segmented_response_accepted: true, max_reassembly_segments: 3 };
    let mut state = SegmentedReceiveState::new(1, vec![9], None, Some(2), 0);
    // Segment 0 stored without an ACK (window of 2 not yet full).
    let r = state.on_segment(0, true, vec![1], true, limits, 1, 5);
    assert!(r.frame.is_none());
    assert!(!r.end_session);
    assert!(matches!(r.step, ReassemblyStep::Continue));
    // Segment 1 closes the window: positive SegmentACK to the segment's sender.
    let r = state.on_segment(1, true, vec![2], true, limits, 2, 5);
    assert_eq!(r.frame, Some(vec![0x40, 5, 1, 2]));
    assert_eq!(r.target, ReplyTarget::SegmentSource);
    // A repeat of segment 1 within the allowance is dropped silently.
    let r = state.on_segment(1, true, vec![2], true, limits, 3, 5);
    assert!(r.frame.is_none());
    assert_eq!(state.duplicate_count, 1);
    assert_eq!(state.accepted_segments(), 2);
    // A gap draws one negative SegmentACK naming segment 1; nothing is stored.
    let r = state.on_segment(5, true, vec![7], true, limits, 4, 5);
    assert_eq!(r.frame, Some(vec![0x42, 5, 1, 2]));
    assert_eq!(r.target, ReplyTarget::SegmentSource);
    assert!(!r.end_session);
    assert_eq!(state.accepted_segments(), 2);
    assert_eq!(state.expected_next_seq, 2);
    assert_eq!(state.last_sequence_number, 1);
    // Segment 2 fills the bound; segment 3 in order overflows it.
    let r = state.on_segment(2, true, vec![3], true, limits, 5, 5);
    assert!(!r.end_session);
    let r = state.on_segment(3, true, vec![4], true, limits, 6, 5);
    assert_eq!(r.frame, Some(vec![0x70, 5, 1]));
    assert_eq!(r.target, ReplyTarget::SessionPeer);
    assert!(r.end_session);
    assert!(matches!(r.step, ReassemblyStep::Fail(Error::Abort { reason: 1 })));
    // A session whose transaction is gone ends with INVALID_APDU_IN_THIS_STATE.
    let r = state.on_segment(3, true, vec![4], false, limits, 7, 5);
    assert_eq!(r.frame, Some(vec![0x70, 5, 2]));
    assert!(r.end_session);
    assert!(matches!(r.step, ReassemblyStep::Abandon));
}

#[test]
fn final_segment_completes_with_the_concatenation() {
    let limits = ResponseLimits { segmented_response_accepted: true, max_reassembly_segments: 256 };
    let mut state = SegmentedReceiveState::new(1, vec![9], None, Some(4), 0);
    let _ = state.on_segment(0, true, vec![1, 2], true, limits, 1, 8);
    let r = state.on_segment(1, false, vec![3], true, limits, 2, 8);
    assert_eq!(r.frame, Some(vec![0x40, 8, 1, 4]));
    assert!(r.end_session);
    match r.step {
        ReassemblyStep::Complete(payload) => assert_eq!(payload, vec![1, 2, 3]),
        other => panic!("unexpected step {other:?}"),
    }
}
