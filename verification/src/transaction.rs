//! The life of a confirmed transaction after its request is sent: what its
//! outcome means to the caller, how the request and segment timers are
//! answered, and which terminal PDU may complete it.

use vstd::prelude::*;
use vstd::string::*;

use crate::config::ClientConfig;
use crate::error::Error;
use crate::model::{ABORT_INVALID_APDU_IN_THIS_STATE, ABORT_TSM_TIMEOUT};

verus! {

/// Timers and retries of the transaction state machine.
pub struct TsmConfig {
    pub apdu_timeout_ms: u64,
    pub apdu_segment_timeout_ms: u64,
    pub apdu_retries: u8,
}

/// The transaction state machine settings of a client: the APDU timeout
/// doubles as the segment timeout.
pub fn tsm_config(config: &ClientConfig) -> (r: TsmConfig)
    ensures
        r == (TsmConfig {
            apdu_timeout_ms: config.apdu_timeout_ms,
            apdu_segment_timeout_ms: config.apdu_timeout_ms,
            apdu_retries: config.apdu_retries,
        }),
{
    TsmConfig {
        apdu_timeout_ms: config.apdu_timeout_ms,
        apdu_segment_timeout_ms: config.apdu_timeout_ms,
        apdu_retries: config.apdu_retries,
    }
}

/// How a transaction ended.
#[derive(Debug)]
pub enum TsmResponse {
    SimpleAck,
    ComplexAck { service_data: Vec<u8> },
    Error { class: u32, code: u32 },
    Reject { reason: u8 },
    Abort { reason: u8 },
    /// A router rejected the request as too long for network `dnet`.
    NetworkPathTooLong { dnet: u16 },
}

/// The result a caller receives for a transaction outcome: the service data
/// of an acknowledgment (empty for a SimpleACK), or the matching error.
pub fn confirmed_response_result(response: TsmResponse) -> (r: Result<Vec<u8>, Error>)
    ensures
        match response {
            TsmResponse::SimpleAck => r matches Ok(d) && d@.len() == 0,
            TsmResponse::ComplexAck { service_data } => r matches Ok(d) && d@ == service_data@,
            TsmResponse::Error { class, code } => r == Err::<Vec<u8>, Error>(
                Error::Protocol { class, code },
            ),
            TsmResponse::Reject { reason } => r == Err::<Vec<u8>, Error>(Error::Reject { reason }),
            TsmResponse::Abort { reason } => r == Err::<Vec<u8>, Error>(Error::Abort { reason }),
            TsmResponse::NetworkPathTooLong { dnet } => r == Err::<Vec<u8>, Error>(
                Error::RoutedPathTooLong { dnet },
            ),
        },
{
    match response {
        TsmResponse::SimpleAck => Ok(Vec::new()),
        TsmResponse::ComplexAck { service_data } => Ok(service_data),
        TsmResponse::Error { class, code } => Err(Error::Protocol { class, code }),
        TsmResponse::Reject { reason } => Err(Error::Reject { reason }),
        TsmResponse::Abort { reason } => Err(Error::Abort { reason }),
        TsmResponse::NetworkPathTooLong { dnet } => Err(Error::RoutedPathTooLong { dnet }),
    }
}

/// Which timer governs a transaction.
#[derive(Clone, Copy, Debug, PartialEq, Eq, Structural)]
pub enum TransactionProgress {
    /// AWAIT_CONFIRMATION: the request timer runs.
    AwaitingResponse,
    /// SEGMENTED_CONF: the segment timer runs for this reassembly generation.
    SegmentedResponse { generation: u64 },
}

/// What the transaction state machine decided when the request timer expired.
pub enum RequestTimerExpiration {
    /// Retransmit the request.
    Retry,
    /// A segmented response began meanwhile.
    SegmentedResponse { generation: u64 },
    /// The transaction timed out and was removed.
    TimedOut,
    /// The transaction no longer exists.
    NoTransaction,
}

/// What the transaction state machine decided when the segment timer expired.
pub enum SegmentTimerExpiration {
    /// Segments arrived meanwhile: keep waiting in this generation.
    Activity { generation: u64 },
    /// The reassembly was reset: back to waiting for a response.
    AwaitingResponse,
    /// The transaction timed out and was removed.
    TimedOut,
    /// The transaction no longer exists.
    NoTransaction,
}

/// What the waiting caller does next.
#[derive(Debug)]
pub enum WaitStep {
    /// Keep waiting under the given progress.
    Continue(TransactionProgress),
    /// Retransmit the request APDU (after its routed path authorizes it).
    Resend,
    /// Give up with this error after scheduling cleanup.
    Fail(Error),
    /// The outcome is already decided elsewhere: wait for it.
    AwaitOutcome,
}

/// What the waiting caller does after trying to retransmit its request.
#[derive(Clone, Copy, Debug, PartialEq, Eq, Structural)]
pub enum RetryAttemptStep {
    /// The retransmission was not authorized: wait for the outcome.
    AwaitOutcome,
    /// The retransmission went out: keep waiting under this progress.
    Continue(TransactionProgress),
    /// Sending failed: report the final request-timer expiry.
    FinalExpiry,
}

/// The timers and retry count of a caller waiting for its response.
pub struct ResponseWait {
    pub progress: TransactionProgress,
    pub retries_sent: u16,
    pub max_retries: u8,
    /// Whether the request can be retransmitted (an unsegmented request).
    pub can_retry: bool,
    pub request_timeout_ms: u64,
    pub segment_timeout_ms: u64,
}

/// The segment timer of a wait: four segment timeouts, saturating.
pub open spec fn segment_wait_ms(apdu_segment_timeout_ms: u64) -> u64 {
    if apdu_segment_timeout_ms * 4 <= u64::MAX {
        (apdu_segment_timeout_ms * 4) as u64
    } else {
        u64::MAX
    }
}

/// The wait after its request timer expired and was answered `e`.
pub open spec fn after_request_timer(w: ResponseWait, e: RequestTimerExpiration) -> ResponseWait {
    match e {
        RequestTimerExpiration::Retry => if w.can_retry {
            ResponseWait {
                retries_sent: if w.retries_sent < u16::MAX {
                    (w.retries_sent + 1) as u16
                } else {
                    u16::MAX
                },
                ..w
            }
        } else {
            w
        },
        RequestTimerExpiration::SegmentedResponse { generation } => ResponseWait {
            progress: TransactionProgress::SegmentedResponse { generation },
            ..w
        },
        _ => w,
    }
}

/// What the caller does when its request timer expired and was answered `e`.
pub open spec fn request_timer_step(w: ResponseWait, e: RequestTimerExpiration) -> WaitStep {
    match e {
        RequestTimerExpiration::Retry => if w.can_retry {
            WaitStep::Resend
        } else {
            WaitStep::Fail(Error::Timeout { millis: w.request_timeout_ms })
        },
        RequestTimerExpiration::SegmentedResponse { generation } => WaitStep::Continue(
            TransactionProgress::SegmentedResponse { generation },
        ),
        RequestTimerExpiration::TimedOut => WaitStep::Fail(Error::Abort { reason: ABORT_TSM_TIMEOUT }),
        RequestTimerExpiration::NoTransaction => WaitStep::AwaitOutcome,
    }
}

/// The transaction state machine's answer to an expired request timer of a
/// transaction that received nothing: a retry when the caller asks for one,
/// and the end of the transaction when the caller reports the final expiry.
pub open spec fn unanswered_expiry(w: ResponseWait) -> RequestTimerExpiration {
    if w.can_retry && w.retries_sent < w.max_retries {
        RequestTimerExpiration::Retry
    } else {
        RequestTimerExpiration::TimedOut
    }
}

/// The wait after `k` request timers expired with nothing received.
pub open spec fn unanswered_run(w: ResponseWait, k: nat) -> ResponseWait
    decreases k,
{
    if k == 0 {
        w
    } else {
        let p = unanswered_run(w, (k - 1) as nat);
        after_request_timer(p, unanswered_expiry(p))
    }
}

/// A retransmittable request that receives nothing is sent again exactly
/// `max_retries` times, once per expired request timer, and then fails with
/// an Abort whose reason is TSM_TIMEOUT; a request that may not be
/// retransmitted fails so at its first expiry.
pub proof fn lemma_unanswered_wait(w: ResponseWait)
    requires
        w.retries_sent == 0,
    ensures
        w.can_retry ==> {
            &&& forall|k: nat|
                k <= w.max_retries ==> #[trigger] unanswered_run(w, k) == (ResponseWait {
                    retries_sent: k as u16,
                    ..w
                })
            &&& forall|k: nat|
                k < w.max_retries ==> request_timer_step(
                    #[trigger] unanswered_run(w, k),
                    unanswered_expiry(unanswered_run(w, k)),
                ) is Resend
            &&& request_timer_step(
                unanswered_run(w, w.max_retries as nat),
                unanswered_expiry(unanswered_run(w, w.max_retries as nat)),
            ) == WaitStep::Fail(Error::Abort { reason: ABORT_TSM_TIMEOUT })
        },
        !w.can_retry ==> request_timer_step(w, unanswered_expiry(w)) == WaitStep::Fail(
            Error::Abort { reason: ABORT_TSM_TIMEOUT },
        ),
{
    if w.can_retry {
        assert forall|k: nat| k <= w.max_retries implies #[trigger] unanswered_run(w, k) == (
        ResponseWait { retries_sent: k as u16, ..w }) by {
            lemma_unanswered_run_counts(w, k);
        }
        assert forall|k: nat| k < w.max_retries implies request_timer_step(
            #[trigger] unanswered_run(w, k),
            unanswered_expiry(unanswered_run(w, k)),
        ) is Resend by {
            lemma_unanswered_run_counts(w, k);
        }
        lemma_unanswered_run_counts(w, w.max_retries as nat);
    }
}

proof fn lemma_unanswered_run_counts(w: ResponseWait, k: nat)
    requires
        w.retries_sent == 0,
        w.can_retry,
        k <= w.max_retries,
    ensures
        unanswered_run(w, k) == (ResponseWait { retries_sent: k as u16, ..w }),
    decreases k,
{
    if k > 0 {
        lemma_unanswered_run_counts(w, (k - 1) as nat);
    }
}

impl ResponseWait {
    /// A wait that starts under `progress` with no retry sent.
    pub fn new(
        progress: TransactionProgress,
        apdu_timeout_ms: u64,
        apdu_segment_timeout_ms: u64,
        max_retries: u8,
        can_retry: bool,
    ) -> (r: Self)
        ensures
            r.progress == progress,
            r.retries_sent == 0,
            r.max_retries == max_retries,
            r.can_retry == can_retry,
            r.request_timeout_ms == apdu_timeout_ms,
            r.segment_timeout_ms == segment_wait_ms(apdu_segment_timeout_ms),
    {
        ResponseWait {
            progress,
            retries_sent: 0,
            max_retries,
            can_retry,
            request_timeout_ms: apdu_timeout_ms,
            segment_timeout_ms: match apdu_segment_timeout_ms.checked_mul(4) {
                Some(t) => t,
                None => u64::MAX,
            },
        }
    }

    /// Milliseconds until the governing timer expires.
    pub fn timer_ms(&self) -> (r: u64)
        ensures
            r == match self.progress {
                TransactionProgress::AwaitingResponse => self.request_timeout_ms,
                TransactionProgress::SegmentedResponse { .. } => self.segment_timeout_ms,
            },
    {
        match self.progress {
            TransactionProgress::AwaitingResponse => self.request_timeout_ms,
            TransactionProgress::SegmentedResponse { .. } => self.segment_timeout_ms,
        }
    }

    /// Whether an expiring request timer should ask for a retransmission.
    pub fn wants_retry(&self) -> (r: bool)
        ensures
            r == (self.can_retry && self.retries_sent < self.max_retries),
    {
        self.can_retry && self.retries_sent < self.max_retries as u16
    }

    /// The transaction state machine reported new progress.
    pub fn on_progress(&mut self, progress: TransactionProgress)
        ensures
            *final(self) == (ResponseWait { progress, ..*old(self) }),
    {
        self.progress = progress;
    }

    /// Answer an expired request timer.
    ///
    /// A retransmission is asked for only while [`Self::wants_retry`] holds,
    /// so the retry count then never passes the configured maximum.
    pub fn on_request_timer(&mut self, expiration: RequestTimerExpiration) -> (r: WaitStep)
        ensures
            *final(self) == after_request_timer(*old(self), expiration),
            r == request_timer_step(*old(self), expiration),
            final(self).max_retries == old(self).max_retries,
            final(self).can_retry == old(self).can_retry,
            final(self).request_timeout_ms == old(self).request_timeout_ms,
            final(self).segment_timeout_ms == old(self).segment_timeout_ms,
            match expiration {
                RequestTimerExpiration::Retry => if old(self).can_retry {
                    &&& r is Resend
                    &&& final(self).retries_sent == if old(self).retries_sent < u16::MAX {
                        (old(self).retries_sent + 1) as u16
                    } else {
                        u16::MAX
                    }
                    &&& final(self).progress == old(self).progress
                } else {
                    &&& r == WaitStep::Fail(Error::Timeout { millis: old(self).request_timeout_ms })
                    &&& *final(self) == *old(self)
                },
                RequestTimerExpiration::SegmentedResponse { generation } => {
                    &&& r == WaitStep::Continue(TransactionProgress::SegmentedResponse { generation })
                    &&& final(self).progress == TransactionProgress::SegmentedResponse { generation }
                    &&& final(self).retries_sent == old(self).retries_sent
                },
                RequestTimerExpiration::TimedOut => r == WaitStep::Fail(
                    Error::Abort { reason: ABORT_TSM_TIMEOUT },
                ) && *final(self) == *old(self),
                RequestTimerExpiration::NoTransaction => r is AwaitOutcome && *final(self)
                    == *old(self),
            },
            old(self).can_retry && old(self).retries_sent < old(self).max_retries
                ==> final(self).retries_sent <= final(self).max_retries,
    {
        match expiration {
            RequestTimerExpiration::Retry => {
                if !self.can_retry {
                    return WaitStep::Fail(Error::Timeout { millis: self.request_timeout_ms });
                }
                self.retries_sent = self.retries_sent.saturating_add(1);
                WaitStep::Resend
            },
            RequestTimerExpiration::SegmentedResponse { generation } => {
                self.progress = TransactionProgress::SegmentedResponse { generation };
                WaitStep::Continue(self.progress)
            },
            RequestTimerExpiration::TimedOut => WaitStep::Fail(
                Error::Abort { reason: ABORT_TSM_TIMEOUT },
            ),
            RequestTimerExpiration::NoTransaction => WaitStep::AwaitOutcome,
        }
    }

    /// What follows a retransmission the wait asked for: when its routed path
    /// does not authorize it, wait for the outcome decided elsewhere; when it
    /// was sent, keep waiting as before; when sending failed, report the final
    /// request-timer expiry and answer it with [`Self::on_retry_send_failed`].
    pub fn after_retry_attempt(&self, authorized: bool, sent: bool) -> (r: RetryAttemptStep)
        ensures
            !authorized ==> r == RetryAttemptStep::AwaitOutcome,
            authorized && sent ==> r == RetryAttemptStep::Continue(self.progress),
            authorized && !sent ==> r == RetryAttemptStep::FinalExpiry,
    {
        if !authorized {
            RetryAttemptStep::AwaitOutcome
        } else if sent {
            RetryAttemptStep::Continue(self.progress)
        } else {
            RetryAttemptStep::FinalExpiry
        }
    }

    /// Answer the final expiry reported after a retransmission failed to send
    /// with `send_error`: the transaction either moved on or ends with that
    /// error.
    pub fn on_retry_send_failed(&mut self, expiration: RequestTimerExpiration, send_error: Error) -> (r:
        WaitStep)
        requires
            !(expiration is Retry),
        ensures
            final(self).retries_sent == old(self).retries_sent,
            final(self).max_retries == old(self).max_retries,
            final(self).can_retry == old(self).can_retry,
            final(self).request_timeout_ms == old(self).request_timeout_ms,
            final(self).segment_timeout_ms == old(self).segment_timeout_ms,
            match expiration {
                RequestTimerExpiration::SegmentedResponse { generation } => {
                    &&& r == WaitStep::Continue(TransactionProgress::SegmentedResponse { generation })
                    &&& final(self).progress == TransactionProgress::SegmentedResponse { generation }
                },
                RequestTimerExpiration::TimedOut => r == WaitStep::Fail(send_error)
                    && final(self).progress == old(self).progress,
                _ => r is AwaitOutcome && final(self).progress == old(self).progress,
            },
    {
        match expiration {
            RequestTimerExpiration::SegmentedResponse { generation } => {
                self.progress = TransactionProgress::SegmentedResponse { generation };
                WaitStep::Continue(self.progress)
            },
            RequestTimerExpiration::TimedOut => WaitStep::Fail(send_error),
            _ => WaitStep::AwaitOutcome,
        }
    }

    /// Answer an expired segment timer.
    pub fn on_segment_timer(&mut self, expiration: SegmentTimerExpiration) -> (r: WaitStep)
        ensures
            final(self).retries_sent == old(self).retries_sent,
            final(self).max_retries == old(self).max_retries,
            final(self).can_retry == old(self).can_retry,
            final(self).request_timeout_ms == old(self).request_timeout_ms,
            final(self).segment_timeout_ms == old(self).segment_timeout_ms,
            match expiration {
                SegmentTimerExpiration::Activity { generation } => {
                    &&& r == WaitStep::Continue(TransactionProgress::SegmentedResponse { generation })
                    &&& final(self).progress == TransactionProgress::SegmentedResponse { generation }
                },
                SegmentTimerExpiration::AwaitingResponse => {
                    &&& r == WaitStep::Continue(TransactionProgress::AwaitingResponse)
                    &&& final(self).progress == TransactionProgress::AwaitingResponse
                },
                SegmentTimerExpiration::TimedOut => r == WaitStep::Fail(
                    Error::Abort { reason: ABORT_TSM_TIMEOUT },
                ) && final(self).progress == old(self).progress,
                SegmentTimerExpiration::NoTransaction => r is AwaitOutcome && final(self).progress
                    == old(self).progress,
            },
    {
        match expiration {
            SegmentTimerExpiration::Activity { generation } => {
                self.progress = TransactionProgress::SegmentedResponse { generation };
                WaitStep::Continue(self.progress)
            },
            SegmentTimerExpiration::AwaitingResponse => {
                self.progress = TransactionProgress::AwaitingResponse;
                WaitStep::Continue(self.progress)
            },
            SegmentTimerExpiration::TimedOut => WaitStep::Fail(
                Error::Abort { reason: ABORT_TSM_TIMEOUT },
            ),
            SegmentTimerExpiration::NoTransaction => WaitStep::AwaitOutcome,
        }
    }
}

/// Where a transaction stands when a terminal PDU (SimpleACK, ComplexACK,
/// Error, Reject, Abort) arrives for it.
pub enum TerminalPhase {
    /// The final segment of a segmented request is being sent; wait until
    /// that send has been polled, then look again.
    FinalSegmentSendPolling { owner: u64 },
    /// The transaction may be completed by this PDU.
    Active { owner: u64 },
    /// The peer answered before the segmented request was complete.
    PrematureSegmentedRequest { owner: u64 },
    /// No transaction matches.
    NoTransaction,
}

/// What dispatch does with a terminal PDU.
#[derive(Debug, PartialEq, Eq)]
pub enum TerminalStep {
    /// Wait for the final segment's send, then look again for this owner.
    WaitPolled { owner: u64 },
    /// Complete this owner's transaction with the PDU's response.
    Complete { owner: u64 },
    /// End the owner's segmented request with an Abort,
    /// INVALID_APDU_IN_THIS_STATE, locally and toward the peer.
    AbortPremature { owner: u64, reason: u8 },
    /// Nothing to complete.
    Rejected,
}

/// Choose the terminal step for `phase`; `response_available` is false once
/// the PDU's response has been handed out.
pub fn terminal_step(phase: TerminalPhase, response_available: bool) -> (r: TerminalStep)
    ensures
        match phase {
            TerminalPhase::FinalSegmentSendPolling { owner } => r == TerminalStep::WaitPolled { owner },
            TerminalPhase::Active { owner } => if response_available {
                r == TerminalStep::Complete { owner }
            } else {
                r == TerminalStep::Rejected
            },
            TerminalPhase::PrematureSegmentedRequest { owner } => r == (TerminalStep::AbortPremature {
                owner,
                reason: ABORT_INVALID_APDU_IN_THIS_STATE,
            }),
            TerminalPhase::NoTransaction => r == TerminalStep::Rejected,
        },
{
    match phase {
        TerminalPhase::FinalSegmentSendPolling { owner } => TerminalStep::WaitPolled { owner },
        TerminalPhase::Active { owner } => if response_available {
            TerminalStep::Complete { owner }
        } else {
            TerminalStep::Rejected
        },
        TerminalPhase::PrematureSegmentedRequest { owner } => TerminalStep::AbortPremature {
            owner,
            reason: ABORT_INVALID_APDU_IN_THIS_STATE,
        },
        TerminalPhase::NoTransaction => TerminalStep::Rejected,
    }
}

/// The phase of a transaction for a PDU that is not phase-gated (Reject,
/// Abort): an expected owner completes it only while still current;
/// otherwise the current owner, if any, does.
pub fn ungated_phase(
    expected_owner: Option<u64>,
    expected_is_current: bool,
    current_owner: Option<u64>,
) -> (r: TerminalPhase)
    ensures
        match expected_owner {
            Some(o) => if expected_is_current {
                r == TerminalPhase::Active { owner: o }
            } else {
                r == TerminalPhase::NoTransaction
            },
            None => match current_owner {
                Some(o) => r == TerminalPhase::Active { owner: o },
                None => r == TerminalPhase::NoTransaction,
            },
        },
{
    match expected_owner {
        Some(o) => if expected_is_current {
            TerminalPhase::Active { owner: o }
        } else {
            TerminalPhase::NoTransaction
        },
        None => match current_owner {
            Some(o) => TerminalPhase::Active { owner: o },
            None => TerminalPhase::NoTransaction,
        },
    }
}

} // verus!
