//! Segment sizing and splitting, and reassembly of a segmented ComplexACK:
//! duplicate detection, per-window SegmentACKs, negative acknowledgments and
//! the local storage bound.

use vstd::prelude::*;
use vstd::string::*;
use vstd::slice::{slice_subrange, slice_to_vec};

use crate::config::ClientConfig;
use crate::error::Error;
use crate::limits::{advertised_max_segments, advertised_segments};
use crate::dispatch::{encode_abort, encode_segment_ack};
use crate::model::{NpduAddress, ABORT_BUFFER_OVERFLOW, ABORT_INVALID_APDU_IN_THIS_STATE};

verus! {

broadcast use vstd::seq_lib::group_seq_properties;

/// Size of the sequence-number space, and so the hard reassembly ceiling:
/// segments are keyed by an 8-bit sequence number, so 256 reassemble
/// correctly and a 257th would overwrite the first.
pub const SEQUENCE_NUMBER_SPACE: usize = 256;

/// Most segmented receive sessions held at once.
pub const MAX_CONCURRENT_SEG_SESSIONS: usize = 64;

/// How long an idle segmented receive session is kept, in milliseconds.
pub const SEG_RECEIVER_TIMEOUT_MS: u64 = 4000;

/// The kind of segmented PDU whose header a segment shares the APDU with.
#[derive(Clone, Copy)]
pub enum SegmentedPduType {
    /// BACnet-Confirmed-Request-PDU: type, max-segments/max-APDU, invoke ID,
    /// sequence number, proposed window size, service choice.
    ConfirmedRequest,
    /// BACnet-ComplexACK-PDU: type, invoke ID, sequence number, proposed
    /// window size, service choice.
    ComplexAck,
}

impl SegmentedPduType {
    /// Octets of the segmented header of this PDU type.
    pub open spec fn header_len(self) -> u16 {
        match self {
            SegmentedPduType::ConfirmedRequest => 6,
            SegmentedPduType::ComplexAck => 5,
        }
    }
}

/// Service-data octets one segment carries within `max_apdu` octets.
pub fn max_segment_payload(max_apdu: u16, pdu_type: SegmentedPduType) -> (r: usize)
    ensures
        r == if max_apdu >= pdu_type.header_len() {
            (max_apdu - pdu_type.header_len()) as usize
        } else {
            0usize
        },
{
    let header: u16 = match pdu_type {
        SegmentedPduType::ConfirmedRequest => 6,
        SegmentedPduType::ComplexAck => 5,
    };
    max_apdu.saturating_sub(header) as usize
}

/// `s` cut into pieces of `max` octets, the last one possibly shorter; an
/// empty payload is one empty piece.
pub open spec fn chunks(s: Seq<u8>, max: nat) -> Seq<Seq<u8>>
    decreases s.len(),
{
    if max == 0 || s.len() <= max {
        seq![s]
    } else {
        seq![s.take(max as int)] + chunks(s.skip(max as int), max)
    }
}

/// The byte contents of a list of buffers.
pub open spec fn views(v: Seq<Vec<u8>>) -> Seq<Seq<u8>> {
    v.map_values(|b: Vec<u8>| b@)
}

proof fn lemma_views_push(v: Seq<Vec<u8>>, b: Vec<u8>)
    ensures
        views(v.push(b)) == views(v).push(b@),
{
    assert(views(v.push(b)) =~= views(v).push(b@));
}

/// Splitting and concatenating gives the payload back, and every piece but
/// the last is full.
pub proof fn lemma_chunks_flatten(s: Seq<u8>, max: nat)
    requires
        max > 0,
    ensures
        chunks(s, max).flatten() == s,
        chunks(s, max).len() >= 1,
        forall|i: int| 0 <= i < chunks(s, max).len() ==> #[trigger] chunks(s, max)[i].len() <= max,
        forall|i: int| 0 <= i < chunks(s, max).len() - 1 ==> #[trigger] chunks(s, max)[i].len() == max,
    decreases s.len(),
{
    if s.len() <= max {
        seq![s].lemma_flatten_singleton();
    } else {
        let rest = chunks(s.skip(max as int), max);
        lemma_chunks_flatten(s.skip(max as int), max);
        let whole = seq![s.take(max as int)] + rest;
        assert(whole.drop_first() =~= rest);
        assert(whole.flatten() == s.take(max as int) + rest.flatten());
        assert(s.take(max as int) + s.skip(max as int) =~= s);
        assert forall|i: int| 0 <= i < whole.len() implies #[trigger] whole[i].len() <= max by {
            if i > 0 {
                assert(whole[i] == rest[i - 1]);
            }
        }
        assert forall|i: int| 0 <= i < whole.len() - 1 implies #[trigger] whole[i].len() == max by {
            if i > 0 {
                assert(whole[i] == rest[i - 1]);
            }
        }
    }
}

proof fn lemma_chunks_step(s: Seq<u8>, max: nat, offset: int)
    requires
        max > 0,
        0 <= offset,
        offset + max < s.len(),
    ensures
        chunks(s.skip(offset), max) == seq![s.subrange(offset, offset + max)] + chunks(
            s.skip(offset + max),
            max,
        ),
{
    assert(s.skip(offset).take(max as int) =~= s.subrange(offset, offset + max));
    assert(s.skip(offset).skip(max as int) =~= s.skip(offset + max));
}

/// Split `data` into segments of at most `max_segment` octets.
///
/// Fails when a segment could carry no data, or when more segments would be
/// needed than sequence numbers exist.
pub fn split_payload(data: &[u8], max_segment: usize) -> (r: Result<Vec<Vec<u8>>, Error>)
    ensures
        max_segment == 0 ==> (r matches Err(Error::Segmentation(m)) && m@
            == "segment payload size must be nonzero"@),
        max_segment > 0 ==> match r {
            Ok(v) => views(v@) == chunks(data@, max_segment as nat) && v.len()
                <= SEQUENCE_NUMBER_SPACE,
            Err(e) => e matches Error::Segmentation(m) && m@
                == "payload needs more segments than sequence numbers"@ && chunks(
                data@,
                max_segment as nat,
            ).len() > SEQUENCE_NUMBER_SPACE,
        },
{
    if max_segment == 0 {
        return Err(Error::Segmentation(String::from_str("segment payload size must be nonzero")));
    }
    let ghost max = max_segment as nat;
    let mut segments: Vec<Vec<u8>> = Vec::new();
    let mut offset: usize = 0;
    loop
        invariant_except_break
            views(segments@) + chunks(data@.skip(offset as int), max) == chunks(data@, max),
        invariant
            max_segment > 0,
            max == max_segment as nat,
            offset <= data@.len(),
        ensures
            views(segments@) == chunks(data@, max),
        decreases data@.len() - offset,
    {
        let remaining = data.len() - offset;
        if remaining <= max_segment {
            let piece = slice_to_vec(slice_subrange(data, offset, data.len()));
            proof {
                assert(data@.skip(offset as int) =~= data@.subrange(offset as int, data@.len() as int));
                lemma_views_push(segments@, piece);
                assert(views(segments@.push(piece)) =~= views(segments@) + chunks(
                    data@.skip(offset as int),
                    max,
                ));
            }
            segments.push(piece);
            break;
        }
        let end = offset + max_segment;
        let piece = slice_to_vec(slice_subrange(data, offset, end));
        proof {
            lemma_chunks_step(data@, max, offset as int);
            lemma_views_push(segments@, piece);
            assert(views(segments@.push(piece)) + chunks(data@.skip(end as int), max) =~= views(
                segments@,
            ) + chunks(data@.skip(offset as int), max));
        }
        segments.push(piece);
        offset = end;
    }
    proof {
        assert(views(segments@).len() == segments@.len());
    }
    if segments.len() > SEQUENCE_NUMBER_SPACE {
        return Err(
            Error::Segmentation(String::from_str("payload needs more segments than sequence numbers")),
        );
    }
    Ok(segments)
}

/// The receive-side limits a client puts in its confirmed requests.
#[derive(Clone, Copy)]
pub struct ResponseLimits {
    /// Whether segmented responses are accepted at all.
    pub segmented_response_accepted: bool,
    /// Most segments held for one reassembly.
    pub max_reassembly_segments: usize,
}

impl ResponseLimits {
    /// The limits `config` puts on the wire: the advertised max-segments rung
    /// (no bound when it promises none), never above the sequence space.
    pub fn from_config(config: &ClientConfig) -> (r: ResponseLimits)
        ensures
            r.segmented_response_accepted == config.segmented_response_accepted,
            r.max_reassembly_segments == match advertised_segments(config.max_segments) {
                Some(n) => if n <= SEQUENCE_NUMBER_SPACE { n as usize } else { SEQUENCE_NUMBER_SPACE },
                None => SEQUENCE_NUMBER_SPACE,
            },
    {
        let advertised: usize = match advertised_max_segments(config.max_segments) {
            Some(n) => n as usize,
            None => usize::MAX,
        };
        ResponseLimits {
            segmented_response_accepted: config.segmented_response_accepted,
            max_reassembly_segments: if advertised <= SEQUENCE_NUMBER_SPACE {
                advertised
            } else {
                SEQUENCE_NUMBER_SPACE
            },
        }
    }
}

/// `(a - b)` modulo 256.
pub open spec fn seq_distance(a: u8, b: u8) -> int {
    if a >= b {
        a - b
    } else {
        a - b + 256
    }
}

/// The sequence number after `s`, modulo 256.
pub open spec fn next_seq(s: u8) -> u8 {
    if s == 255 {
        0
    } else {
        (s + 1) as u8
    }
}

/// `seq` lies in `first..=last` modulo 256: a segment of the current window
/// already received.
pub open spec fn in_received_window(seq: u8, first: u8, last: u8) -> bool {
    seq_distance(seq, first) <= seq_distance(last, first)
}

/// Whether `seq` repeats a segment in `first..=last`, modulo 256.
pub fn duplicate_in_window(seq: u8, first: u8, last: u8) -> (r: bool)
    ensures
        r == in_received_window(seq, first, last),
{
    seq.wrapping_sub(first) <= last.wrapping_sub(first)
}

/// Whether a segment of a segmented ComplexACK gets as far as reassembly.
#[derive(Debug, PartialEq, Eq)]
pub enum SegmentAdmission {
    /// Segmented responses are refused: answer with an Abort,
    /// SEGMENTATION_NOT_SUPPORTED.
    RefuseUnsupported,
    /// No transaction awaits it: drop any session and answer with an Abort,
    /// INVALID_APDU_IN_THIS_STATE.
    AbortNotPending,
    /// Every session slot is taken: drop the segment.
    DropNoSlot,
    /// Hand the segment to its (possibly new) session.
    Proceed,
}

/// Decide whether a segment proceeds to its receive session, in the order the
/// checks apply: support for segmented responses, a pending transaction, a
/// free session slot for a new session.
pub fn admit_segment(
    segmented_response_accepted: bool,
    transaction_pending: bool,
    session_exists: bool,
    session_count: usize,
) -> (r: SegmentAdmission)
    ensures
        !segmented_response_accepted ==> r is RefuseUnsupported,
        segmented_response_accepted && !transaction_pending ==> r is AbortNotPending,
        segmented_response_accepted && transaction_pending ==> (r is DropNoSlot <==> (!session_exists
            && session_count >= MAX_CONCURRENT_SEG_SESSIONS)),
        segmented_response_accepted && transaction_pending ==> (r is Proceed <==> (session_exists
            || session_count < MAX_CONCURRENT_SEG_SESSIONS)),
{
    if !segmented_response_accepted {
        SegmentAdmission::RefuseUnsupported
    } else if !transaction_pending {
        SegmentAdmission::AbortNotPending
    } else if !session_exists && session_count >= MAX_CONCURRENT_SEG_SESSIONS {
        SegmentAdmission::DropNoSlot
    } else {
        SegmentAdmission::Proceed
    }
}

/// Where a reply to a received segment goes: back to the sender of that
/// segment, or to the peer recorded when the receive session opened.
#[derive(Clone, Copy, Debug, PartialEq, Eq, Structural)]
pub enum ReplyTarget {
    SegmentSource,
    SessionPeer,
}

/// What a received segment means for the transaction awaiting the response.
#[derive(Debug)]
pub enum ReassemblyStep {
    /// Nothing yet: keep waiting for segments.
    Continue,
    /// The response is complete: the reassembled service data.
    Complete(Vec<u8>),
    /// The transaction ends with this error.
    Fail(Error),
    /// The transaction is already gone: only the session ends.
    Abandon,
}

/// What the client does after one segment: the APDU to send and where, and
/// whether the receive session ends.
pub struct SegmentReply {
    pub frame: Option<Vec<u8>>,
    pub target: ReplyTarget,
    pub end_session: bool,
    pub step: ReassemblyStep,
}

/// The octets of a client SegmentACK (negative or not).
pub open spec fn client_segment_ack(negative: bool, invoke_id: u8, sequence_number: u8, actual_window_size: u8) -> Seq<
    u8,
> {
    seq![if negative { 0x42u8 } else { 0x40u8 }, invoke_id, sequence_number, actual_window_size]
}

/// Turn what became of a segment into the reply for transaction `invoke_id`:
/// SegmentACKs and the Abort of a stale session answer the segment's sender;
/// the BUFFER_OVERFLOW Abort goes to the session's peer and fails the
/// transaction.
pub fn segment_reply(d: SegmentDisposition, invoke_id: u8) -> (r: SegmentReply)
    ensures
        match d@ {
            DispositionView::DuplicateDiscarded => r.frame is None && !r.end_session && r.step is Continue,
            DispositionView::NegativeAck { sequence_number, actual_window_size } => {
                &&& r.frame matches Some(v) && v@ == client_segment_ack(
                    true,
                    invoke_id,
                    sequence_number,
                    actual_window_size,
                )
                &&& r.target == ReplyTarget::SegmentSource
                &&& !r.end_session
                &&& r.step is Continue
            },
            DispositionView::AbortStale => {
                &&& r.frame matches Some(v) && v@ == seq![0x70u8, invoke_id, ABORT_INVALID_APDU_IN_THIS_STATE]
                &&& r.target == ReplyTarget::SegmentSource
                &&& r.end_session
                &&& r.step is Abandon
            },
            DispositionView::AbortOverflow => {
                &&& r.frame matches Some(v) && v@ == seq![0x70u8, invoke_id, ABORT_BUFFER_OVERFLOW]
                &&& r.target == ReplyTarget::SessionPeer
                &&& r.end_session
                &&& r.step == ReassemblyStep::Fail(Error::Abort { reason: ABORT_BUFFER_OVERFLOW })
            },
            DispositionView::Stored { ack, sequence_number, actual_window_size } => {
                &&& ack ==> (r.frame matches Some(v) && v@ == client_segment_ack(
                    false,
                    invoke_id,
                    sequence_number,
                    actual_window_size,
                ))
                &&& !ack ==> r.frame is None
                &&& r.target == ReplyTarget::SegmentSource
                &&& !r.end_session
                &&& r.step is Continue
            },
            DispositionView::Completed { sequence_number, actual_window_size, payload } => {
                &&& r.frame matches Some(v) && v@ == client_segment_ack(
                    false,
                    invoke_id,
                    sequence_number,
                    actual_window_size,
                )
                &&& r.target == ReplyTarget::SegmentSource
                &&& r.end_session
                &&& r.step matches ReassemblyStep::Complete(p) && p@ == payload
            },
        },
{
    match d {
        SegmentDisposition::DuplicateDiscarded => SegmentReply {
            frame: None,
            target: ReplyTarget::SegmentSource,
            end_session: false,
            step: ReassemblyStep::Continue,
        },
        SegmentDisposition::NegativeAck { sequence_number, actual_window_size } => SegmentReply {
            frame: Some(encode_segment_ack(true, false, invoke_id, sequence_number, actual_window_size)),
            target: ReplyTarget::SegmentSource,
            end_session: false,
            step: ReassemblyStep::Continue,
        },
        SegmentDisposition::AbortStale => SegmentReply {
            frame: Some(encode_abort(false, invoke_id, ABORT_INVALID_APDU_IN_THIS_STATE)),
            target: ReplyTarget::SegmentSource,
            end_session: true,
            step: ReassemblyStep::Abandon,
        },
        SegmentDisposition::AbortOverflow => SegmentReply {
            frame: Some(encode_abort(false, invoke_id, ABORT_BUFFER_OVERFLOW)),
            target: ReplyTarget::SessionPeer,
            end_session: true,
            step: ReassemblyStep::Fail(Error::Abort { reason: ABORT_BUFFER_OVERFLOW }),
        },
        SegmentDisposition::Stored { ack, sequence_number, actual_window_size } => SegmentReply {
            frame: if ack {
                Some(encode_segment_ack(false, false, invoke_id, sequence_number, actual_window_size))
            } else {
                None
            },
            target: ReplyTarget::SegmentSource,
            end_session: false,
            step: ReassemblyStep::Continue,
        },
        SegmentDisposition::Completed { sequence_number, actual_window_size, payload } => SegmentReply {
            frame: Some(encode_segment_ack(false, false, invoke_id, sequence_number, actual_window_size)),
            target: ReplyTarget::SegmentSource,
            end_session: true,
            step: ReassemblyStep::Complete(payload),
        },
    }
}

/// An in-progress segmented receive.
pub struct SegmentedReceiveState {
    /// Segments accepted so far, in order.
    pub segments: Vec<Vec<u8>>,
    /// Identity of the transaction the session belongs to.
    pub owner: u64,
    /// Immediate MAC used to send SegmentACK and Abort PDUs.
    pub reply_mac: Vec<u8>,
    /// The peer's SNET/SADR when the segments arrive through a router.
    pub reply_network: Option<NpduAddress>,
    /// Next expected sequence number.
    pub expected_next_seq: u8,
    /// Last sequence number of the previously completed window.
    pub initial_sequence_number: u8,
    /// Last segment accepted in order.
    pub last_sequence_number: u8,
    /// Duplicates silently discarded in the current window.
    pub duplicate_count: u8,
    /// Segments accepted since the last SegmentACK.
    pub window_position: u8,
    /// Window size accepted for this session.
    pub actual_window_size: u8,
    /// Time of the last segment, in milliseconds.
    pub last_activity_ms: u64,
}

/// The counters of a receive session, apart from its segments.
pub struct ReceiveCounters {
    pub expected_next_seq: u8,
    pub initial_sequence_number: u8,
    pub last_sequence_number: u8,
    pub duplicate_count: u8,
    pub window_position: u8,
    pub actual_window_size: u8,
}

/// What happens to one received segment.
#[derive(Debug)]
pub enum SegmentDisposition {
    /// A repeat of a segment of the current window, silently discarded.
    DuplicateDiscarded,
    /// Out of order, or the duplicate allowance is spent: send a negative
    /// SegmentACK naming the last segment accepted in order.
    NegativeAck { sequence_number: u8, actual_window_size: u8 },
    /// The transaction is gone: end the session and answer with an Abort,
    /// INVALID_APDU_IN_THIS_STATE.
    AbortStale,
    /// The segment cannot be held: end the session and abort with
    /// BUFFER_OVERFLOW.
    AbortOverflow,
    /// Stored in order; when `ack`, a SegmentACK for it goes out now.
    Stored { ack: bool, sequence_number: u8, actual_window_size: u8 },
    /// The final segment, acknowledged: the reassembled service data.
    Completed { sequence_number: u8, actual_window_size: u8, payload: Vec<u8> },
}

/// Mathematical value of a [`SegmentDisposition`].
pub enum DispositionView {
    DuplicateDiscarded,
    NegativeAck { sequence_number: u8, actual_window_size: u8 },
    AbortStale,
    AbortOverflow,
    Stored { ack: bool, sequence_number: u8, actual_window_size: u8 },
    Completed { sequence_number: u8, actual_window_size: u8, payload: Seq<u8> },
}

impl View for SegmentDisposition {
    type V = DispositionView;

    open spec fn view(&self) -> DispositionView {
        match self {
            SegmentDisposition::DuplicateDiscarded => DispositionView::DuplicateDiscarded,
            SegmentDisposition::NegativeAck { sequence_number, actual_window_size } =>
                DispositionView::NegativeAck {
                sequence_number: *sequence_number,
                actual_window_size: *actual_window_size,
            },
            SegmentDisposition::AbortStale => DispositionView::AbortStale,
            SegmentDisposition::AbortOverflow => DispositionView::AbortOverflow,
            SegmentDisposition::Stored { ack, sequence_number, actual_window_size } =>
                DispositionView::Stored {
                ack: *ack,
                sequence_number: *sequence_number,
                actual_window_size: *actual_window_size,
            },
            SegmentDisposition::Completed { sequence_number, actual_window_size, payload } =>
                DispositionView::Completed {
                sequence_number: *sequence_number,
                actual_window_size: *actual_window_size,
                payload: payload@,
            },
        }
    }
}

/// The counters after an out-of-order segment that is not discarded: a gap
/// restarts the window at the last in-order segment.
pub open spec fn after_negative_ack(c: ReceiveCounters, duplicate: bool) -> ReceiveCounters {
    if duplicate {
        ReceiveCounters { duplicate_count: 0, ..c }
    } else {
        ReceiveCounters { initial_sequence_number: c.last_sequence_number, duplicate_count: 0, ..c }
    }
}

/// The counters after accepting segment `seq` in order; at a window boundary
/// or on the final segment the window closes with a SegmentACK.
pub open spec fn after_accept(c: ReceiveCounters, seq: u8, more_follows: bool) -> ReceiveCounters {
    let position = if c.window_position < 255 { (c.window_position + 1) as u8 } else { 255u8 };
    if !more_follows || position >= c.actual_window_size {
        ReceiveCounters {
            expected_next_seq: next_seq(seq),
            initial_sequence_number: seq,
            last_sequence_number: seq,
            duplicate_count: 0,
            window_position: 0,
            actual_window_size: c.actual_window_size,
        }
    } else {
        ReceiveCounters {
            expected_next_seq: next_seq(seq),
            last_sequence_number: seq,
            window_position: position,
            ..c
        }
    }
}

/// Whether accepting a segment with these counters sends its SegmentACK now.
pub open spec fn acks_now(c: ReceiveCounters, more_follows: bool) -> bool {
    let position = if c.window_position < 255 { (c.window_position + 1) as u8 } else { 255u8 };
    !more_follows || position >= c.actual_window_size
}

/// Segments are accepted strictly in sequence order: a session that starts
/// at sequence number 0 and has stored `n` segments expects `n` modulo 256
/// next, so the `n`-th stored segment carried sequence number `n` modulo 256.
pub proof fn lemma_accept_keeps_sequence_alignment(c: ReceiveCounters, n: nat, seq: u8, more_follows: bool)
    requires
        c.expected_next_seq == n % 256,
        seq == c.expected_next_seq,
    ensures
        after_accept(c, seq, more_follows).expected_next_seq == (n + 1) % 256,
        after_accept(c, seq, more_follows).last_sequence_number == n % 256,
{
}

/// After an in-order segment the window position stays below a positive
/// window size, and the final segment always closes the window with a
/// SegmentACK.
pub proof fn lemma_accept_window(c: ReceiveCounters, seq: u8, more_follows: bool)
    requires
        c.actual_window_size >= 1,
        c.window_position < c.actual_window_size,
    ensures
        after_accept(c, seq, more_follows).window_position < c.actual_window_size,
        !more_follows ==> acks_now(c, more_follows) && after_accept(c, seq, more_follows).window_position == 0,
        acks_now(c, more_follows) ==> after_accept(c, seq, more_follows).initial_sequence_number == seq,
{
}

/// A duplicate is discarded at most `actual_window_size` times in a row
/// before a negative SegmentACK goes out.
pub proof fn lemma_duplicates_bounded(c: ReceiveCounters)
    requires
        c.duplicate_count < c.actual_window_size,
    ensures
        c.duplicate_count + 1 <= c.actual_window_size,
        after_negative_ack(c, true).duplicate_count == 0,
        after_negative_ack(c, false).initial_sequence_number == c.last_sequence_number,
{
}

impl SegmentedReceiveState {
    /// A new session for segments from `reply_mac` (and `reply_network`), with
    /// the window size the first segment proposed (1 when it proposed none).
    pub fn new(
        owner: u64,
        reply_mac: Vec<u8>,
        reply_network: Option<NpduAddress>,
        proposed_window_size: Option<u8>,
        now_ms: u64,
    ) -> (r: Self)
        ensures
            r.segments@.len() == 0,
            r.owner == owner,
            r.reply_mac@ == reply_mac@,
            r.reply_network == reply_network,
            r.counters() == (ReceiveCounters {
                expected_next_seq: 0,
                initial_sequence_number: 0,
                last_sequence_number: 0,
                duplicate_count: 0,
                window_position: 0,
                actual_window_size: match proposed_window_size {
                    Some(w) => w,
                    None => 1,
                },
            }),
            r.last_activity_ms == now_ms,
    {
        SegmentedReceiveState {
            segments: Vec::new(),
            owner,
            reply_mac,
            reply_network,
            expected_next_seq: 0,
            initial_sequence_number: 0,
            last_sequence_number: 0,
            duplicate_count: 0,
            window_position: 0,
            actual_window_size: match proposed_window_size {
                Some(w) => w,
                None => 1,
            },
            last_activity_ms: now_ms,
        }
    }

    /// The session's counters.
    pub open spec fn counters(&self) -> ReceiveCounters {
        ReceiveCounters {
            expected_next_seq: self.expected_next_seq,
            initial_sequence_number: self.initial_sequence_number,
            last_sequence_number: self.last_sequence_number,
            duplicate_count: self.duplicate_count,
            window_position: self.window_position,
            actual_window_size: self.actual_window_size,
        }
    }

    /// Number of segments accepted so far.
    pub fn accepted_segments(&self) -> (r: usize)
        ensures
            r == self.segments@.len(),
    {
        self.segments.len()
    }

    /// Handle segment `seq` carrying `data`, received at `now_ms`.
    ///
    /// `transaction_current` reports whether the transaction still awaits this
    /// response. Once a segment has been accepted that is checked before
    /// anything else; for the first segment it is checked once the segment is
    /// known to be in order and to fit.
    pub fn receive(
        &mut self,
        seq: u8,
        more_follows: bool,
        data: Vec<u8>,
        transaction_current: bool,
        limits: ResponseLimits,
        now_ms: u64,
    ) -> (r: SegmentDisposition)
        requires
            old(self).segments@.len() <= limits.max_reassembly_segments,
        ensures
            final(self).owner == old(self).owner,
            final(self).reply_mac@ == old(self).reply_mac@,
            final(self).reply_network == old(self).reply_network,
            final(self).last_activity_ms == now_ms,
            final(self).segments@.len() <= limits.max_reassembly_segments,
            ({
                let c = old(self).counters();
                let held = views(old(self).segments@);
                if old(self).segments@.len() > 0 && !transaction_current {
                    r@ == DispositionView::AbortStale
                } else if seq != c.expected_next_seq {
                    let duplicate = in_received_window(
                        seq,
                        c.initial_sequence_number,
                        c.last_sequence_number,
                    );
                    if duplicate && c.duplicate_count < c.actual_window_size {
                        &&& r@ == DispositionView::DuplicateDiscarded
                        &&& final(self).counters() == (ReceiveCounters {
                            duplicate_count: (c.duplicate_count + 1) as u8,
                            ..c
                        })
                        &&& views(final(self).segments@) == held
                    } else {
                        &&& r@ == (DispositionView::NegativeAck {
                            sequence_number: c.last_sequence_number,
                            actual_window_size: c.actual_window_size,
                        })
                        &&& final(self).counters() == after_negative_ack(c, duplicate)
                        &&& views(final(self).segments@) == held
                    }
                } else if old(self).segments@.len() >= limits.max_reassembly_segments {
                    r@ == DispositionView::AbortOverflow
                } else if old(self).segments@.len() == 0 && !transaction_current {
                    r@ == DispositionView::AbortStale
                } else {
                    &&& views(final(self).segments@) == held.push(data@)
                    &&& final(self).counters() == after_accept(c, seq, more_follows)
                    &&& if more_follows {
                        r@ == (DispositionView::Stored {
                            ack: acks_now(c, more_follows),
                            sequence_number: seq,
                            actual_window_size: c.actual_window_size,
                        })
                    } else {
                        r@ == (DispositionView::Completed {
                            sequence_number: seq,
                            actual_window_size: c.actual_window_size,
                            payload: held.push(data@).flatten(),
                        })
                    }
                }
            }),
    {
        self.last_activity_ms = now_ms;
        let accepted = self.segments.len();
        if accepted > 0 && !transaction_current {
            return SegmentDisposition::AbortStale;
        }
        if seq != self.expected_next_seq {
            let duplicate = duplicate_in_window(
                seq,
                self.initial_sequence_number,
                self.last_sequence_number,
            );
            if duplicate && self.duplicate_count < self.actual_window_size {
                self.duplicate_count = self.duplicate_count + 1;
                return SegmentDisposition::DuplicateDiscarded;
            }
            if !duplicate {
                self.initial_sequence_number = self.last_sequence_number;
            }
            self.duplicate_count = 0;
            return SegmentDisposition::NegativeAck {
                sequence_number: self.last_sequence_number,
                actual_window_size: self.actual_window_size,
            };
        }
        if accepted >= limits.max_reassembly_segments {
            return SegmentDisposition::AbortOverflow;
        }
        if accepted == 0 && !transaction_current {
            return SegmentDisposition::AbortStale;
        }
        let ghost held = views(self.segments@);
        let ghost data_view = data@;
        proof {
            lemma_views_push(self.segments@, data);
        }
        self.segments.push(data);
        self.expected_next_seq = seq.wrapping_add(1);
        self.last_sequence_number = seq;
        let position: u8 = if self.window_position < 255 { self.window_position + 1 } else { 255 };
        self.window_position = position;
        let ack = !more_follows || position >= self.actual_window_size;
        if ack {
            self.window_position = 0;
            self.initial_sequence_number = seq;
            self.duplicate_count = 0;
        }
        if more_follows {
            SegmentDisposition::Stored {
                ack,
                sequence_number: seq,
                actual_window_size: self.actual_window_size,
            }
        } else {
            let payload = self.reassemble();
            proof {
                assert(views(self.segments@) == held.push(data_view));
            }
            SegmentDisposition::Completed {
                sequence_number: seq,
                actual_window_size: self.actual_window_size,
                payload,
            }
        }
    }

    /// Handle segment `seq` of the response to transaction `invoke_id` and
    /// decide the reply: [`Self::receive`], then [`segment_reply`].
    ///
    /// A segment out of order, once the duplicate allowance is spent or when
    /// it is no repeat, draws one negative SegmentACK naming the last segment
    /// accepted and stores nothing; a repeat within the allowance is dropped
    /// silently; an in-order segment beyond the storage bound ends the session
    /// with a BUFFER_OVERFLOW Abort to the session's peer and fails the
    /// transaction.
    pub fn on_segment(
        &mut self,
        seq: u8,
        more_follows: bool,
        data: Vec<u8>,
        transaction_current: bool,
        limits: ResponseLimits,
        now_ms: u64,
        invoke_id: u8,
    ) -> (r: SegmentReply)
        requires
            old(self).segments@.len() <= limits.max_reassembly_segments,
        ensures
            final(self).owner == old(self).owner,
            final(self).reply_mac@ == old(self).reply_mac@,
            final(self).reply_network == old(self).reply_network,
            final(self).last_activity_ms == now_ms,
            final(self).segments@.len() <= limits.max_reassembly_segments,
            ({
                let c = old(self).counters();
                let held = views(old(self).segments@);
                let live = !(old(self).segments@.len() > 0 && !transaction_current);
                let duplicate = in_received_window(
                    seq,
                    c.initial_sequence_number,
                    c.last_sequence_number,
                );
                let in_order = seq == c.expected_next_seq;
                let fits = old(self).segments@.len() < limits.max_reassembly_segments;
                &&& !live ==> {
                    &&& r.frame matches Some(v) && v@ == seq![
                        0x70u8,
                        invoke_id,
                        ABORT_INVALID_APDU_IN_THIS_STATE,
                    ]
                    &&& r.target == ReplyTarget::SegmentSource
                    &&& r.end_session
                    &&& r.step is Abandon
                }
                &&& live && !in_order && duplicate && c.duplicate_count < c.actual_window_size ==> {
                    &&& r.frame is None
                    &&& !r.end_session
                    &&& r.step is Continue
                    &&& views(final(self).segments@) == held
                    &&& final(self).counters() == (ReceiveCounters {
                        duplicate_count: (c.duplicate_count + 1) as u8,
                        ..c
                    })
                }
                &&& live && !in_order && !(duplicate && c.duplicate_count < c.actual_window_size) ==> {
                    &&& r.frame matches Some(v) && v@ == client_segment_ack(
                        true,
                        invoke_id,
                        c.last_sequence_number,
                        c.actual_window_size,
                    )
                    &&& r.target == ReplyTarget::SegmentSource
                    &&& !r.end_session
                    &&& r.step is Continue
                    &&& views(final(self).segments@) == held
                    &&& final(self).expected_next_seq == c.expected_next_seq
                    &&& final(self).last_sequence_number == c.last_sequence_number
                    &&& final(self).actual_window_size == c.actual_window_size
                }
                &&& live && in_order && !fits ==> {
                    &&& r.frame matches Some(v) && v@ == seq![0x70u8, invoke_id, ABORT_BUFFER_OVERFLOW]
                    &&& r.target == ReplyTarget::SessionPeer
                    &&& r.end_session
                    &&& r.step == ReassemblyStep::Fail(Error::Abort { reason: ABORT_BUFFER_OVERFLOW })
                }
                &&& live && in_order && fits && old(self).segments@.len() == 0 && !transaction_current
                    ==> {
                    &&& r.frame matches Some(v) && v@ == seq![
                        0x70u8,
                        invoke_id,
                        ABORT_INVALID_APDU_IN_THIS_STATE,
                    ]
                    &&& r.end_session
                    &&& r.step is Abandon
                }
                &&& live && in_order && fits && transaction_current ==> {
                    &&& views(final(self).segments@) == held.push(data@)
                    &&& final(self).counters() == after_accept(c, seq, more_follows)
                    &&& r.target == ReplyTarget::SegmentSource
                    &&& (acks_now(c, more_follows) ==> (r.frame matches Some(v) && v@ == client_segment_ack(
                        false,
                        invoke_id,
                        seq,
                        c.actual_window_size,
                    )))
                    &&& (!acks_now(c, more_follows) ==> r.frame is None)
                    &&& more_follows ==> !r.end_session && r.step is Continue
                    &&& !more_follows ==> r.end_session
                    &&& !more_follows ==> (r.step matches ReassemblyStep::Complete(p) && p@ == held.push(
                        data@,
                    ).flatten())
                }
            }),
    {
        let d = self.receive(seq, more_follows, data, transaction_current, limits, now_ms);
        segment_reply(d, invoke_id)
    }

    /// The concatenation of the accepted segments.
    pub fn reassemble(&self) -> (r: Vec<u8>)
        ensures
            r@ == views(self.segments@).flatten(),
    {
        let mut out: Vec<u8> = Vec::new();
        let mut i: usize = 0;
        while i < self.segments.len()
            invariant
                i <= self.segments@.len(),
                out@ == views(self.segments@.take(i as int)).flatten(),
            decreases self.segments@.len() - i,
        {
            proof {
                assert(self.segments@.take(i as int + 1) =~= self.segments@.take(i as int).push(
                    self.segments@[i as int],
                ));
                lemma_views_push(self.segments@.take(i as int), self.segments@[i as int]);
                views(self.segments@.take(i as int)).lemma_flatten_push(self.segments@[i as int]@);
            }
            out.extend_from_slice(self.segments[i].as_slice());
            proof {
                assert(out@ =~= views(self.segments@.take(i as int)).flatten()
                    + self.segments@[i as int]@);
            }
            i = i + 1;
        }
        proof {
            assert(self.segments@.take(i as int) =~= self.segments@);
        }
        out
    }
}

} // verus!
