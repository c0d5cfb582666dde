//! Windowed transmission of a segmented confirmed request: which segments to
//! send, how SegmentACKs and timeouts move the window, and when the transfer
//! fails.

use vstd::prelude::*;
use vstd::string::*;

use crate::error::Error;
use crate::segmentation::{
    chunks, lemma_chunks_flatten, max_segment_payload, split_payload, views, SegmentedPduType,
    SEQUENCE_NUMBER_SPACE,
};
use crate::text::{decimal_chars, push_decimal};

verus! {

/// Consecutive in-window negative SegmentACKs tolerated before giving up.
pub const MAX_NEG_ACK_RETRIES: u32 = 10;

/// Message of the error for a request that needs more segments than the peer
/// accepts.
pub open spec fn too_many_segments_message(total: nat, max: nat) -> Seq<char> {
    "request requires "@ + decimal_chars(total) + " segments but remote accepts at most "@
        + decimal_chars(max)
}

/// Split the service data of a confirmed request into segments that fit the
/// peer's `remote_max_apdu`, and check the count against the peer's
/// max-segments-accepted when it gave one.
pub fn plan_segments(service_data: &[u8], remote_max_apdu: u16, remote_max_segments: Option<u32>) -> (r:
    Result<Vec<Vec<u8>>, Error>)
    ensures
        ({
            let size = if remote_max_apdu >= 6 { (remote_max_apdu - 6) as nat } else { 0nat };
            let pieces = chunks(service_data@, size);
            if size == 0 || pieces.len() > SEQUENCE_NUMBER_SPACE {
                r matches Err(Error::Segmentation(_))
            } else if (remote_max_segments matches Some(m) && pieces.len() > m) {
                r matches Err(Error::Segmentation(msg)) && msg@ == too_many_segments_message(
                    pieces.len(),
                    remote_max_segments.unwrap() as nat,
                )
            } else {
                r matches Ok(v) && views(v@) == pieces
            }
        }),
        r matches Ok(v) ==> {
            &&& 1 <= v@.len() <= SEQUENCE_NUMBER_SPACE
            &&& views(v@).flatten() == service_data@
            &&& forall|i: int| 0 <= i < v@.len() ==> #[trigger] v@[i]@.len() + 6 <= remote_max_apdu
        },
{
    let size = max_segment_payload(remote_max_apdu, SegmentedPduType::ConfirmedRequest);
    let segments = split_payload(service_data, size)?;
    proof {
        lemma_chunks_flatten(service_data@, size as nat);
        assert forall|i: int| 0 <= i < segments@.len() implies #[trigger] segments@[i]@.len() + 6
            <= remote_max_apdu by {
            assert(views(segments@)[i] == segments@[i]@);
        }
    }
    if let Some(max) = remote_max_segments {
        if segments.len() as u64 > max as u64 {
            let mut msg = String::from_str("request requires ");
            push_decimal(&mut msg, segments.len() as u64);
            msg.append(" segments but remote accepts at most ");
            push_decimal(&mut msg, max as u64);
            return Err(Error::Segmentation(msg));
        }
    }
    Ok(segments)
}

/// The header fields that distinguish one segment of a segmented confirmed
/// request.
#[derive(Clone, Copy, Debug, PartialEq, Eq, Structural)]
pub struct SegmentHeader {
    pub sequence_number: u8,
    pub more_follows: bool,
    pub proposed_window_size: u8,
}

/// The proposed window size sent in segments: the configured one, at least 1.
pub open spec fn window_floor(proposed_window_size: u8) -> u8 {
    if proposed_window_size == 0 {
        1
    } else {
        proposed_window_size
    }
}

/// The header of segment `seq` of a request of `total` segments.
pub open spec fn segment_header_spec(seq: nat, total: nat, proposed_window_size: u8) -> SegmentHeader {
    SegmentHeader {
        sequence_number: seq as u8,
        more_follows: seq + 1 < total,
        proposed_window_size: window_floor(proposed_window_size),
    }
}

/// The header of segment `seq` of a request of `total` segments: segments
/// are numbered from 0 and all but the last announce that more follow.
pub fn segment_header(seq: usize, total: usize, proposed_window_size: u8) -> (r: SegmentHeader)
    requires
        seq < total <= SEQUENCE_NUMBER_SPACE,
    ensures
        r == segment_header_spec(seq as nat, total as nat, proposed_window_size),
        r.sequence_number == seq,
        r.more_follows == (seq + 1 < total),
{
    SegmentHeader {
        sequence_number: seq as u8,
        more_follows: seq + 1 < total,
        proposed_window_size: if proposed_window_size == 0 { 1 } else { proposed_window_size },
    }
}

/// The segments of a request whose service data `data` is sent to a peer
/// accepting APDUs of `remote_max_apdu` octets: numbered `0..n` in order,
/// with more-follows set on all but the last, each fitting the peer's APDU
/// with its header, and together holding exactly `data`.
pub proof fn lemma_segmented_request_frames(data: Seq<u8>, remote_max_apdu: u16, proposed_window_size: u8)
    requires
        remote_max_apdu > 6,
        chunks(data, (remote_max_apdu - 6) as nat).len() <= SEQUENCE_NUMBER_SPACE,
    ensures
        ({
            let pieces = chunks(data, (remote_max_apdu - 6) as nat);
            let n = pieces.len();
            &&& 1 <= n <= SEQUENCE_NUMBER_SPACE
            &&& pieces.flatten() == data
            &&& forall|i: int| 0 <= i < n ==> #[trigger] pieces[i].len() + 6 <= remote_max_apdu
            &&& forall|i: int|
                0 <= i < n ==> (#[trigger] segment_header_spec(i as nat, n, proposed_window_size)).sequence_number
                    == i
            &&& forall|i: int|
                0 <= i < n ==> ((#[trigger] segment_header_spec(i as nat, n, proposed_window_size)).more_follows
                    <==> i < n - 1)
        }),
{
    let max = (remote_max_apdu - 6) as nat;
    let pieces = chunks(data, max);
    lemma_chunks_flatten(data, max);
    assert forall|i: int| 0 <= i < pieces.len() implies (#[trigger] segment_header_spec(
        i as nat,
        pieces.len(),
        proposed_window_size,
    )).sequence_number == i by {
        assert(0 <= i < 256);
    }
}

/// A SegmentACK received for the request, or the lack of one.
pub enum AckEvent {
    /// A SegmentACK (positive or negative) from the server.
    Ack { sequence_number: u8, negative: bool, actual_window_size: u8 },
    /// The segment timer expired with no acceptable SegmentACK.
    Timeout,
    /// The SegmentACK channel closed.
    Closed,
}

/// What the sender does next.
#[derive(Debug)]
pub enum SendStep {
    /// Transmit segments `start..end` and wait for their SegmentACK.
    SendWindow { start: usize, end: usize },
    /// Every segment is acknowledged: wait for the response.
    AwaitResponse,
    /// Keep waiting for a SegmentACK of the current window.
    KeepWaiting,
    /// The transfer failed.
    Failed(Error),
}

/// State of a segmented request in flight.
pub struct SegmentedSend {
    /// Number of segments of the request.
    pub total_segments: usize,
    /// First segment not yet acknowledged.
    pub next_seq: usize,
    /// Current window size (at least 1).
    pub window_size: usize,
    /// The window being acknowledged: `window_start..window_end`.
    pub window_start: usize,
    pub window_end: usize,
    /// Consecutive in-window negative SegmentACKs.
    pub neg_ack_retries: u32,
    /// Retransmissions of the current window after a timeout.
    pub ack_retries: u8,
    /// Retransmissions allowed per window.
    pub max_ack_retries: u8,
    /// Segment timeout in milliseconds, reported when retries run out.
    pub timeout_ms: u64,
}

/// The window that opens at `next` with size `size` among `total` segments.
pub open spec fn window_end(next: nat, size: nat, total: nat) -> nat {
    if next + size <= total {
        next + size
    } else {
        total
    }
}

impl SegmentedSend {
    /// Well-formedness: the window lies within the segments and the window
    /// size is positive.
    pub open spec fn wf(&self) -> bool {
        &&& 0 < self.total_segments <= SEQUENCE_NUMBER_SPACE
        &&& self.window_size >= 1
        &&& self.next_seq <= self.total_segments
        &&& self.window_start <= self.next_seq
        &&& self.window_start <= self.window_end <= self.total_segments
    }

    /// A transfer of `total_segments` segments using this client's proposed
    /// window size (at least 1).
    pub fn new(total_segments: usize, proposed_window_size: u8, max_ack_retries: u8, timeout_ms: u64) -> (r:
        Self)
        requires
            0 < total_segments <= SEQUENCE_NUMBER_SPACE,
        ensures
            r.wf(),
            r.total_segments == total_segments,
            r.next_seq == 0,
            r.window_size == if proposed_window_size >= 1 { proposed_window_size as usize } else { 1 },
            r.neg_ack_retries == 0,
            r.max_ack_retries == max_ack_retries,
            r.timeout_ms == timeout_ms,
    {
        SegmentedSend {
            total_segments,
            next_seq: 0,
            window_size: if proposed_window_size >= 1 { proposed_window_size as usize } else { 1 },
            window_start: 0,
            window_end: 0,
            neg_ack_retries: 0,
            ack_retries: 0,
            max_ack_retries,
            timeout_ms,
        }
    }

    /// Open the next window, or finish when every segment is acknowledged.
    pub fn open_window(&mut self) -> (r: SendStep)
        requires
            old(self).wf(),
        ensures
            final(self).wf(),
            final(self).total_segments == old(self).total_segments,
            final(self).next_seq == old(self).next_seq,
            final(self).window_size == old(self).window_size,
            final(self).neg_ack_retries == old(self).neg_ack_retries,
            final(self).max_ack_retries == old(self).max_ack_retries,
            final(self).timeout_ms == old(self).timeout_ms,
            old(self).next_seq < old(self).total_segments ==> {
                &&& final(self).window_start == old(self).next_seq
                &&& final(self).window_end == window_end(
                    old(self).next_seq as nat,
                    old(self).window_size as nat,
                    old(self).total_segments as nat,
                )
                &&& final(self).ack_retries == 0
                &&& r matches SendStep::SendWindow { start, end } && start == final(self).window_start
                    && end == final(self).window_end
                &&& final(self).window_start < final(self).window_end
            },
            old(self).next_seq >= old(self).total_segments ==> r is AwaitResponse && *final(self)
                == *old(self),
    {
        if self.next_seq >= self.total_segments {
            return SendStep::AwaitResponse;
        }
        let start = self.next_seq;
        let end = if self.window_size <= self.total_segments - start {
            start + self.window_size
        } else {
            self.total_segments
        };
        self.window_start = start;
        self.window_end = end;
        self.ack_retries = 0;
        SendStep::SendWindow { start, end }
    }

    /// React to a SegmentACK, a timeout or a closed channel while the window
    /// `window_start..window_end` is outstanding.
    ///
    /// An acknowledgment outside the window is a duplicate and is ignored;
    /// one inside it (positive or negative) names the last segment the peer
    /// holds, and the transfer resumes after it.
    pub fn on_event(&mut self, event: AckEvent) -> (r: SendStep)
        requires
            old(self).wf(),
            old(self).window_start < old(self).window_end,
            old(self).next_seq == old(self).window_start,
        ensures
            final(self).wf(),
            final(self).total_segments == old(self).total_segments,
            final(self).max_ack_retries == old(self).max_ack_retries,
            final(self).timeout_ms == old(self).timeout_ms,
            final(self).next_seq >= old(self).next_seq,
            event is Ack && (r is SendWindow || r is AwaitResponse) ==> final(self).next_seq > old(
                self,
            ).next_seq,
            r is AwaitResponse ==> final(self).next_seq == final(self).total_segments,
            match event {
                AckEvent::Closed => r matches SendStep::Failed(Error::Encoding(m)) && m@
                    == "SegmentAck channel closed"@,
                AckEvent::Timeout => if old(self).ack_retries >= old(self).max_ack_retries {
                    r matches SendStep::Failed(Error::Timeout { millis }) && millis
                        == old(self).timeout_ms
                } else {
                    &&& final(self).ack_retries == old(self).ack_retries + 1
                    &&& r matches SendStep::SendWindow { start, end } && start == old(
                        self,
                    ).window_start && end == old(self).window_end
                    &&& final(self).next_seq == old(self).next_seq
                    &&& final(self).window_start == old(self).window_start
                    &&& final(self).window_end == old(self).window_end
                },
                AckEvent::Ack { sequence_number, negative, actual_window_size } => {
                    let s = sequence_number as usize;
                    if s < old(self).window_start || s >= old(self).window_end {
                        r is KeepWaiting && *final(self) == *old(self)
                    } else if negative && old(self).neg_ack_retries >= MAX_NEG_ACK_RETRIES {
                        r matches SendStep::Failed(Error::Segmentation(m)) && m@
                            == "too many negative SegmentAck retransmissions"@
                    } else {
                        &&& final(self).next_seq == s + 1
                        &&& final(self).window_size == if actual_window_size >= 1 {
                            actual_window_size as usize
                        } else {
                            1
                        }
                        &&& final(self).neg_ack_retries == if negative {
                            old(self).neg_ack_retries + 1
                        } else {
                            0
                        }
                        &&& if s + 1 < old(self).total_segments {
                            &&& final(self).window_start == s + 1
                            &&& final(self).window_end == window_end(
                                (s + 1) as nat,
                                final(self).window_size as nat,
                                old(self).total_segments as nat,
                            )
                            &&& final(self).ack_retries == 0
                            &&& r matches SendStep::SendWindow { start, end } && start
                                == final(self).window_start && end == final(self).window_end
                        } else {
                            r is AwaitResponse
                        }
                    }
                },
            },
    {
        match event {
            AckEvent::Closed => {
                SendStep::Failed(Error::Encoding(String::from_str("SegmentAck channel closed")))
            },
            AckEvent::Timeout => {
                if self.ack_retries >= self.max_ack_retries {
                    return SendStep::Failed(Error::Timeout { millis: self.timeout_ms });
                }
                self.ack_retries = self.ack_retries + 1;
                SendStep::SendWindow { start: self.window_start, end: self.window_end }
            },
            AckEvent::Ack { sequence_number, negative, actual_window_size } => {
                let s = sequence_number as usize;
                if s < self.window_start || s >= self.window_end {
                    return SendStep::KeepWaiting;
                }
                if negative {
                    if self.neg_ack_retries >= MAX_NEG_ACK_RETRIES {
                        return SendStep::Failed(
                            Error::Segmentation(
                                String::from_str("too many negative SegmentAck retransmissions"),
                            ),
                        );
                    }
                    self.neg_ack_retries = self.neg_ack_retries + 1;
                } else {
                    self.neg_ack_retries = 0;
                }
                self.window_size = if actual_window_size >= 1 {
                    actual_window_size as usize
                } else {
                    1
                };
                self.next_seq = s + 1;
                self.open_window()
            },
        }
    }
}

} // verus!
