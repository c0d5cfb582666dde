//! Max-APDU buckets, max-segments rungs and the Clause 5.2.1.2 transmittable
//! length floor.

use vstd::prelude::*;
use vstd::string::*;

use crate::error::Error;
use crate::text::{decimal_chars, push_decimal};

verus! {

/// MinimumMessageSize: the smallest APDU every BACnet device accepts.
pub const MINIMUM_MESSAGE_SIZE: u16 = 50;

/// The six max-APDU-length-accepted values a confirmed request can encode.
pub const VALID_MAX_APDU_LENGTHS: [u16; 6] = [50, 128, 206, 480, 1024, 1476];

/// One of the six encodable max-APDU lengths.
pub open spec fn is_encodable_max_apdu(v: u16) -> bool {
    v == 50 || v == 128 || v == 206 || v == 480 || v == 1024 || v == 1476
}

/// The largest encodable max-APDU length that does not exceed `limit`.
pub open spec fn max_apdu_bucket(limit: u16) -> Option<u16> {
    if limit >= 1476 {
        Some(1476u16)
    } else if limit >= 1024 {
        Some(1024u16)
    } else if limit >= 480 {
        Some(480u16)
    } else if limit >= 206 {
        Some(206u16)
    } else if limit >= 128 {
        Some(128u16)
    } else if limit >= 50 {
        Some(50u16)
    } else {
        None
    }
}

/// `max_apdu_bucket` is the greatest encodable value at or below the limit.
pub proof fn lemma_max_apdu_bucket_is_greatest(limit: u16)
    ensures
        match max_apdu_bucket(limit) {
            Some(v) => is_encodable_max_apdu(v) && v <= limit && forall|w: u16|
                is_encodable_max_apdu(w) && w <= limit ==> w <= v,
            None => forall|w: u16| is_encodable_max_apdu(w) ==> w > limit,
        },
{
}

/// Largest encodable max-APDU length at or below `limit`, if any.
pub fn max_apdu_bucket_at_or_below(limit: u16) -> (r: Option<u16>)
    ensures
        r == max_apdu_bucket(limit),
{
    let mut i: usize = 6;
    while i > 0
        invariant
            i <= 6,
            forall|j: int| i <= j < 6 ==> VALID_MAX_APDU_LENGTHS[j] > limit,
        decreases i,
    {
        i = i - 1;
        let bucket = VALID_MAX_APDU_LENGTHS[i];
        if bucket <= limit {
            return Some(bucket);
        }
    }
    None
}

/// Message of the error returned when no bucket fits the transport.
pub open spec fn no_bucket_message(transport_limit: u16) -> Seq<char> {
    "transport max-APDU-length "@ + decimal_chars(transport_limit as nat)
        + " leaves no valid BACnet APDU bucket"@
}

/// Cap the configured max-APDU length to the transport's limit, rounded down
/// to an encodable bucket.
pub fn cap_max_apdu_to_transport(configured: u16, transport_limit: u16) -> (r: Result<u16, Error>)
    ensures
        match max_apdu_bucket(if configured <= transport_limit { configured } else { transport_limit }) {
            Some(v) => r == Ok::<u16, Error>(v),
            None => r matches Err(Error::Encoding(m)) && m@ == no_bucket_message(transport_limit),
        },
{
    let limit = if configured <= transport_limit { configured } else { transport_limit };
    match max_apdu_bucket_at_or_below(limit) {
        Some(v) => Ok(v),
        None => {
            let mut m = String::from_str("transport max-APDU-length ");
            push_decimal(&mut m, transport_limit as u64);
            m.append(" leaves no valid BACnet APDU bucket");
            Err(Error::Encoding(m))
        },
    }
}

/// The largest Clause 20.1.2.4 max-segments rung at or below `n`, when `n`
/// names a finite bound (2..=64); `None` promises nothing.
pub open spec fn advertised_segments(max_segments: Option<u8>) -> Option<u8> {
    match max_segments {
        None => None,
        Some(n) => if n > 64 || n < 2 {
            None
        } else if n >= 64 {
            Some(64u8)
        } else if n >= 32 {
            Some(32u8)
        } else if n >= 16 {
            Some(16u8)
        } else if n >= 8 {
            Some(8u8)
        } else if n >= 4 {
            Some(4u8)
        } else {
            Some(2u8)
        },
    }
}

/// The segment bound a configured max-segments value actually promises on the
/// wire: rounded down to a rung, and no bound above 64 or when unspecified.
pub fn advertised_max_segments(max_segments: Option<u8>) -> (r: Option<u8>)
    ensures
        r == advertised_segments(max_segments),
{
    match max_segments {
        None => None,
        Some(n) => {
            if n > 64 || n < 2 {
                None
            } else if n >= 64 {
                Some(64)
            } else if n >= 32 {
                Some(32)
            } else if n >= 16 {
                Some(16)
            } else if n >= 8 {
                Some(8)
            } else if n >= 4 {
                Some(4)
            } else {
                Some(2)
            }
        },
    }
}

/// One of the finite max-segments-accepted values a request can encode.
pub open spec fn is_segment_rung(v: u8) -> bool {
    v == 2 || v == 4 || v == 8 || v == 16 || v == 32 || v == 64
}

/// A finite max-segments value is advertised as the largest encodable rung
/// at or below it (5 advertises 4), so the client never promises more than
/// it was configured to accept; values above 64 and an unspecified value
/// promise nothing.
pub proof fn lemma_advertised_segments_round_down(max_segments: Option<u8>)
    ensures
        match max_segments {
            Some(n) => if 2 <= n <= 64 {
                advertised_segments(max_segments) matches Some(v) && is_segment_rung(v) && v <= n
                    && forall|w: u8| is_segment_rung(w) && w <= n ==> w <= v
            } else {
                advertised_segments(max_segments) is None
            },
            None => advertised_segments(max_segments) is None,
        },
{
}

/// Message of the error for an unusable max-segments value.
pub open spec fn max_segments_message(n: u8) -> Seq<char> {
    "invalid max-segments-accepted "@ + decimal_chars(n as nat) + "; values 0 and 1 are not valid"@
}

/// Reject the max-segments values 0 and 1, which name no segment count.
pub fn validate_max_segments(max_segments: Option<u8>) -> (r: Result<(), Error>)
    ensures
        match max_segments {
            Some(n) if n < 2 => r matches Err(Error::Encoding(m)) && m@ == max_segments_message(n),
            _ => r is Ok,
        },
{
    match max_segments {
        Some(n) if n < 2 => {
            let mut m = String::from_str("invalid max-segments-accepted ");
            push_decimal(&mut m, n as u64);
            m.append("; values 0 and 1 are not valid");
            Err(Error::Encoding(m))
        },
        _ => Ok(()),
    }
}

/// Which term of Clause 5.2.1.2's minimum bound the transmittable length.
pub enum LengthBoundedBy {
    /// A length advertised by a discovered peer, from I-Am.
    DiscoveredPeer(u16),
    /// This client's own configured maximum.
    LocalConfig(u16),
    /// The data link, after any routed NPDU header.
    Transport(u16),
}

impl LengthBoundedBy {
    /// The length this term stands for.
    pub open spec fn value(self) -> u16 {
        match self {
            LengthBoundedBy::DiscoveredPeer(v) => v,
            LengthBoundedBy::LocalConfig(v) => v,
            LengthBoundedBy::Transport(v) => v,
        }
    }

    /// How the term is named in error messages.
    pub open spec fn text(self) -> Seq<char> {
        match self {
            LengthBoundedBy::DiscoveredPeer(v) => "the peer's advertised Max APDU Length Accepted of "@
                + decimal_chars(v as nat),
            LengthBoundedBy::LocalConfig(v) => "this client's configured maximum of "@
                + decimal_chars(v as nat),
            LengthBoundedBy::Transport(v) => "the transport's limit of "@ + decimal_chars(v as nat),
        }
    }

    /// Append the name of this term to `out`.
    pub fn describe(&self, out: &mut String)
        ensures
            final(out)@ == old(out)@ + self.text(),
    {
        match self {
            LengthBoundedBy::DiscoveredPeer(v) => {
                out.append("the peer's advertised Max APDU Length Accepted of ");
                push_decimal(out, *v as u64);
            },
            LengthBoundedBy::LocalConfig(v) => {
                out.append("this client's configured maximum of ");
                push_decimal(out, *v as u64);
            },
            LengthBoundedBy::Transport(v) => {
                out.append("the transport's limit of ");
                push_decimal(out, *v as u64);
            },
        }
    }
}

/// Message of the error for a transmittable length below MinimumMessageSize.
pub open spec fn transmittable_message(combined: u16, binding: LengthBoundedBy) -> Seq<char> {
    "maximum transmittable length "@ + decimal_chars(combined as nat)
        + " is below the 50-octet MinimumMessageSize every BACnet device accepts (Clause 5.2.1.2); the binding limit is "@
        + binding.text()
}

/// The term that binds the minimum of an advertised length and the transport.
pub open spec fn binding_term(peer_or_local: LengthBoundedBy, transport: u16) -> LengthBoundedBy {
    if transport < peer_or_local.value() {
        LengthBoundedBy::Transport(transport)
    } else {
        peer_or_local
    }
}

/// Reject a maximum transmittable length no conformant device could accept.
///
/// The length is the smaller of the advertised (peer or local) length and the
/// transport's; below MinimumMessageSize the error names whichever term bound it.
pub fn check_transmittable_length(peer_or_local: LengthBoundedBy, transport: u16) -> (r: Result<
    (),
    Error,
>)
    ensures
        ({
            let adv = peer_or_local.value();
            let combined = if adv <= transport { adv } else { transport };
            if combined >= MINIMUM_MESSAGE_SIZE {
                r is Ok
            } else {
                r matches Err(Error::Encoding(m)) && m@ == transmittable_message(
                    combined,
                    binding_term(peer_or_local, transport),
                )
            }
        }),
{
    let advertised = match peer_or_local {
        LengthBoundedBy::DiscoveredPeer(v) => v,
        LengthBoundedBy::LocalConfig(v) => v,
        LengthBoundedBy::Transport(v) => v,
    };
    let combined = if advertised <= transport { advertised } else { transport };
    if combined >= MINIMUM_MESSAGE_SIZE {
        return Ok(());
    }
    let binding = if transport < advertised {
        LengthBoundedBy::Transport(transport)
    } else {
        peer_or_local
    };
    let mut m = String::from_str("maximum transmittable length ");
    push_decimal(&mut m, combined as u64);
    m.append(
        " is below the 50-octet MinimumMessageSize every BACnet device accepts (Clause 5.2.1.2); the binding limit is ",
    );
    binding.describe(&mut m);
    Err(Error::Encoding(m))
}

} // verus!
