use bacnet_client::config::ClientConfig;
use bacnet_client::error::Error;
use bacnet_client::transaction::{
    confirmed_response_result, terminal_step, tsm_config, ungated_phase, RequestTimerExpiration,
    ResponseWait, RetryAttemptStep, SegmentTimerExpiration, TerminalPhase, TerminalStep, TransactionProgress,
    TsmResponse, WaitStep,
};

#[test]
fn responses_map_to_caller_results() {
    assert_eq!(confirmed_response_result(TsmResponse::SimpleAck).unwrap(), Vec::<u8>::new());
    assert_eq!(
        confirmed_response_result(TsmResponse::ComplexAck { service_data: vec![1, 2, 3] }).unwrap(),
        vec![1, 2, 3]
    );
    assert!(matches!(
        confirmed_response_result(TsmResponse::Error { class: 2, code: 32 }),
        Err(Error::Protocol { class: 2, code: 32 })
    ));
    assert!(matches!(confirmed_response_result(TsmResponse::Reject { reason: 9 }), Err(Error::Reject { reason: 9 })));
    assert!(matches!(confirmed_response_result(TsmResponse::Abort { reason: 4 }), Err(Error::Abort { reason: 4 })));
    assert!(matches!(
        confirmed_response_result(TsmResponse::NetworkPathTooLong { dnet: 7 }),
        Err(Error::RoutedPathTooLong { dnet: 7 })
    ));
}

#[test]
fn tsm_uses_the_apdu_timeout_for_segments_too() {
    let config = ClientConfig::default();
    let tsm = tsm_config(&config);
    assert_eq!(tsm.apdu_timeout_ms, 6000);
    assert_eq!(tsm.apdu_segment_timeout_ms, 6000);
    assert_eq!(tsm.apdu_retries, 3);
}

#[test]
fn request_timer_retries_up_to_the_limit() {
    let mut wait = ResponseWait::new(TransactionProgress::AwaitingResponse, 3000, 3000, 2, true);
    assert_eq!(wait.timer_ms(), 3000);
    assert!(wait.wants_retry());
    assert!(matches!(wait.on_request_timer(RequestTimerExpiration::Retry), WaitStep::Resend));
    assert!(matches!(wait.on_request_timer(RequestTimerExpiration::Retry), WaitStep::Resend));
    assert_eq!(wait.retries_sent, 2);
    assert!(!wait.wants_retry());
    assert!(matches!(
        wait.on_request_timer(RequestTimerExpiration::TimedOut),
        WaitStep::Fail(Error::Abort { reason: 10 })
    ));
    assert!(matches!(wait.on_request_timer(RequestTimerExpiration::NoTransaction), WaitStep::AwaitOutcome));
}

#[test]
fn unretriable_request_times_out_with_the_request_timeout() {
    let mut wait = ResponseWait::new(TransactionProgress::AwaitingResponse, 3000, 3000, 2, false);
    assert!(!wait.wants_retry());
    assert!(matches!(
        wait.on_request_timer(RequestTimerExpiration::Retry),
        WaitStep::Fail(Error::Timeout { millis: 3000 })
    ));
}

#[test]
fn segmented_response_switches_to_the_segment_timer() {
    let mut wait = ResponseWait::new(TransactionProgress::AwaitingResponse, 3000, 1000, 2, true);
    assert!(matches!(
        wait.on_request_timer(RequestTimerExpiration::SegmentedResponse { generation: 4 }),
        WaitStep::Continue(TransactionProgress::SegmentedResponse { generation: 4 })
    ));
    assert_eq!(wait.timer_ms(), 4000);
    assert!(matches!(
        wait.on_segment_timer(SegmentTimerExpiration::Activity { generation: 5 }),
        WaitStep::Continue(TransactionProgress::SegmentedResponse { generation: 5 })
    ));
    assert!(matches!(
        wait.on_segment_timer(SegmentTimerExpiration::AwaitingResponse),
        WaitStep::Continue(TransactionProgress::AwaitingResponse)
    ));
    assert_eq!(wait.timer_ms(), 3000);
    assert!(matches!(
        wait.on_segment_timer(SegmentTimerExpiration::TimedOut),
        WaitStep::Fail(Error::Abort { reason: 10 })
    ));
    assert!(matches!(wait.on_segment_timer(SegmentTimerExpiration::NoTransaction), WaitStep::AwaitOutcome));
    let saturated = ResponseWait::new(TransactionProgress::AwaitingResponse, 1, u64::MAX, 0, true);
    assert_eq!(saturated.segment_timeout_ms, u64::MAX);
}

#[test]
fn failed_retry_send_ends_with_the_send_error() {
    let mut wait = ResponseWait::new(TransactionProgress::AwaitingResponse, 3000, 1000, 2, true);
    assert!(matches!(
        wait.on_retry_send_failed(RequestTimerExpiration::TimedOut, Error::Timeout { millis: 1 }),
        WaitStep::Fail(Error::Timeout { millis: 1 })
    ));
    assert!(matches!(
        wait.on_retry_send_failed(RequestTimerExpiration::NoTransaction, Error::Timeout { millis: 1 }),
        WaitStep::AwaitOutcome
    ));
    assert!(matches!(
        wait.on_retry_send_failed(RequestTimerExpiration::SegmentedResponse { generation: 1 }, Error::Timeout { millis: 1 }),
        WaitStep::Continue(TransactionProgress::SegmentedResponse { generation: 1 })
    ));
}

#[test]
fn terminal_pdus_follow_the_transaction_phase() {
    assert_eq!(terminal_step(TerminalPhase::FinalSegmentSendPolling { owner: 1 }, true), TerminalStep::WaitPolled { owner: 1 });
    assert_eq!(terminal_step(TerminalPhase::Active { owner: 1 }, true), TerminalStep::Complete { owner: 1 });
    assert_eq!(terminal_step(TerminalPhase::Active { owner: 1 }, false), TerminalStep::Rejected);
    assert_eq!(
        terminal_step(TerminalPhase::PrematureSegmentedRequest { owner: 1 }, true),
        TerminalStep::AbortPremature { owner: 1, reason: 2 }
    );
    assert_eq!(terminal_step(TerminalPhase::NoTransaction, true), TerminalStep::Rejected);
}

#[test]
fn ungated_pdus_complete_only_a_current_owner() {
    assert!(matches!(ungated_phase(Some(3), true, Some(4)), TerminalPhase::Active { owner: 3 }));
    assert!(matches!(ungated_phase(Some(3), false, Some(4)), TerminalPhase::NoTransaction));
    assert!(matches!(ungated_phase(None, false, Some(4)), TerminalPhase::Active { owner: 4 }));
    assert!(matches!(ungated_phase(None, false, None), TerminalPhase::NoTransaction));
}

#[test]
fn unanswered_request_is_resent_exactly_apdu_retries_times_then_tsm_timeout() {
    for max_retries in [0u8, 1, 3] {
        let mut wait = ResponseWait::new(TransactionProgress::AwaitingResponse, 3000, 2000, max_retries, true);
        let mut resends = 0u32;
        loop {
            // The state machine answers a request timer by the caller's final flag.
            let expiration = if wait.wants_retry() {
                RequestTimerExpiration::Retry
            } else {
                RequestTimerExpiration::TimedOut
            };
            match wait.on_request_timer(expiration) {
                WaitStep::Resend => resends += 1,
                WaitStep::Fail(Error::Abort { reason }) => {
                    assert_eq!(reason, 10);
                    break;
                }
                other => panic!("unexpected step {other:?}"),
            }
            assert!(resends <= u32::from(max_retries));
        }
        assert_eq!(resends, u32::from(max_retries));
        assert_eq!(wait.retries_sent, u16::from(max_retries));
    }
    let mut segmented = ResponseWait::new(TransactionProgress::AwaitingResponse, 3000, 2000, 3, false);
    assert!(!segmented.wants_retry());
    assert!(matches!(
        segmented.on_request_timer(RequestTimerExpiration::TimedOut),
        WaitStep::Fail(Error::Abort { reason: 10 })
    ));
}

#[test]
fn retry_attempts_wait_continue_or_report_the_final_expiry() {
    let wait = ResponseWait::new(TransactionProgress::AwaitingResponse, 3000, 2000, 3, true);
    assert_eq!(wait.after_retry_attempt(false, false), RetryAttemptStep::AwaitOutcome);
    assert_eq!(
        wait.after_retry_attempt(true, true),
        RetryAttemptStep::Continue(TransactionProgress::AwaitingResponse)
    );
    assert_eq!(wait.after_retry_attempt(true, false), RetryAttemptStep::FinalExpiry);
}
