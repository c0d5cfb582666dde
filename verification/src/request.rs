//! How a confirmed request is sent: the size limits that bind it, whether it
//! must be segmented, and the failures that are certain before anything is
//! transmitted.

use vstd::prelude::*;
use vstd::string::*;

use crate::error::Error;
use crate::limits::{
    binding_term, check_transmittable_length, max_apdu_bucket, no_bucket_message, transmittable_message,
    LengthBoundedBy, MINIMUM_MESSAGE_SIZE,
};
use crate::model::Segmentation;
use crate::target::{
    advertised_max_apdu_length_for_target, target_transport_limit, target_transport_max_apdu_length,
    ConfirmedTarget,
};

verus! {

/// Octets an unsegmented BACnet-Confirmed-Request-PDU adds to its service
/// data.
pub const UNSEGMENTED_REQUEST_HEADER: usize = 4;

/// What the device table knows about the peer of a request.
pub struct PeerCapability {
    /// Max APDU Length Accepted from its I-Am (or its registration).
    pub max_apdu_length: u32,
    /// Max Segments Accepted, when known.
    pub max_segments_accepted: Option<u32>,
    /// Segmentation support, when it comes from an I-Am or an explicit
    /// registration rather than a placeholder.
    pub authoritative_segmentation: Option<Segmentation>,
}

/// How a confirmed request goes out.
#[derive(Debug, PartialEq, Eq)]
pub enum RequestPlan {
    /// One unsegmented APDU advertising `advertised_max_apdu`.
    Unsegmented { advertised_max_apdu: u16 },
    /// Segments of at most `remote_max_apdu` octets, at most
    /// `remote_max_segments` of them when the peer said so.
    Segmented {
        advertised_max_apdu: u16,
        remote_max_apdu: u16,
        remote_max_segments: Option<u32>,
    },
}

/// `v` as a `u16`, saturating.
pub open spec fn saturate_u16(v: u32) -> u16 {
    if v <= 0xFFFF {
        v as u16
    } else {
        0xFFFFu16
    }
}

/// The peer's max APDU, or this client's configured maximum when the peer is
/// unknown.
pub open spec fn peer_max_apdu(peer: Option<PeerCapability>, configured_max_apdu: u16) -> u16 {
    match peer {
        Some(p) => saturate_u16(p.max_apdu_length),
        None => configured_max_apdu,
    }
}

/// The term that stands for the peer in the transmittable-length check.
pub open spec fn peer_term(peer: Option<PeerCapability>, configured_max_apdu: u16) -> LengthBoundedBy {
    match peer {
        Some(p) => LengthBoundedBy::DiscoveredPeer(saturate_u16(p.max_apdu_length)),
        None => LengthBoundedBy::LocalConfig(configured_max_apdu),
    }
}

/// The smaller of two lengths.
pub open spec fn min_u16(a: u16, b: u16) -> u16 {
    if a <= b {
        a
    } else {
        b
    }
}

/// The largest APDU the request may use toward its peer.
pub open spec fn remote_max_apdu(
    peer: Option<PeerCapability>,
    configured_max_apdu: u16,
    target_limit: u16,
    routed_path_max_apdu: Option<u16>,
) -> u16 {
    let m = min_u16(peer_max_apdu(peer, configured_max_apdu), target_limit);
    match routed_path_max_apdu {
        Some(p) => min_u16(m, p),
        None => m,
    }
}

/// A peer that cannot receive segmented requests, by what it advertised.
pub open spec fn refuses_segmented_requests(peer: Option<PeerCapability>) -> bool {
    match peer {
        Some(p) => match p.authoritative_segmentation {
            Some(Segmentation::NoSegmentation) => true,
            Some(Segmentation::Transmit) => true,
            _ => false,
        },
        None => false,
    }
}

/// Name of a segmentation capability in messages.
pub open spec fn segmentation_name(s: Segmentation) -> Seq<char> {
    match s {
        Segmentation::Both => "BOTH"@,
        Segmentation::Transmit => "TRANSMIT"@,
        Segmentation::Receive => "RECEIVE"@,
        Segmentation::NoSegmentation => "NONE"@,
    }
}

/// Message of the error for a request a peer cannot receive segmented.
pub open spec fn segmentation_refused_message(s: Segmentation) -> Seq<char> {
    "request requires segmentation but the peer advertised "@ + segmentation_name(s)
        + " and cannot receive segmented requests"@
}

/// The DNET of a routed target (0 for a local one).
pub open spec fn target_dnet(target: ConfirmedTarget) -> u16 {
    match target {
        ConfirmedTarget::Local { .. } => 0,
        ConfirmedTarget::Routed { dest_network, .. } => dest_network,
    }
}

/// The max-APDU length this client advertises toward `target`, if a bucket fits.
pub open spec fn advertised_for(configured_max_apdu: u16, transport_max_apdu: u16, target: ConfirmedTarget) -> Option<u16> {
    let t = target_transport_limit(transport_max_apdu, target);
    max_apdu_bucket(min_u16(configured_max_apdu, t))
}

fn segmentation_text(s: Segmentation) -> (r: &'static str)
    ensures
        r@ == segmentation_name(s),
{
    proof {
        reveal_strlit("BOTH");
        reveal_strlit("TRANSMIT");
        reveal_strlit("RECEIVE");
        reveal_strlit("NONE");
    }
    match s {
        Segmentation::Both => "BOTH",
        Segmentation::Transmit => "TRANSMIT",
        Segmentation::Receive => "RECEIVE",
        Segmentation::NoSegmentation => "NONE",
    }
}

/// Decide how a confirmed request of `service_data_len` octets goes to
/// `target`, before anything is sent.
///
/// The checks come in this order: the maximum transmittable length must reach
/// MinimumMessageSize; a routed path whose learned or configured budget is
/// below MinimumMessageSize (and binding) fails with `RoutedPathTooLong`; a
/// request too large for one APDU is segmented unless the peer advertised
/// that it cannot receive segments; the advertised max-APDU length must fit
/// a bucket.
pub fn plan_confirmed_request(
    target: &ConfirmedTarget,
    service_data_len: usize,
    configured_max_apdu: u16,
    transport_max_apdu: u16,
    peer: &Option<PeerCapability>,
    routed_path_max_apdu: Option<u16>,
) -> (r: Result<RequestPlan, Error>)
    ensures
        ({
            let t = target_transport_limit(transport_max_apdu, *target);
            let pm = peer_max_apdu(*peer, configured_max_apdu);
            let term = peer_term(*peer, configured_max_apdu);
            let combined = min_u16(pm, t);
            let remote = remote_max_apdu(*peer, configured_max_apdu, t, routed_path_max_apdu);
            let too_large = service_data_len + UNSEGMENTED_REQUEST_HEADER > remote;
            let advertised = advertised_for(configured_max_apdu, transport_max_apdu, *target);
            if combined < MINIMUM_MESSAGE_SIZE {
                r matches Err(Error::Encoding(m)) && m@ == transmittable_message(
                    combined,
                    binding_term(term, t),
                )
            } else if (routed_path_max_apdu matches Some(p) && p < MINIMUM_MESSAGE_SIZE && p
                <= combined) {
                r == Err::<RequestPlan, Error>(Error::RoutedPathTooLong { dnet: target_dnet(*target) })
            } else if too_large && refuses_segmented_requests(*peer) {
                r matches Err(Error::Segmentation(m)) && m@ == segmentation_refused_message(
                    peer.unwrap().authoritative_segmentation.unwrap(),
                )
            } else if advertised is None {
                r matches Err(Error::Encoding(m)) && m@ == no_bucket_message(t)
            } else if too_large {
                r == Ok::<RequestPlan, Error>(
                    RequestPlan::Segmented {
                        advertised_max_apdu: advertised.unwrap(),
                        remote_max_apdu: remote,
                        remote_max_segments: match *peer {
                            Some(p) => p.max_segments_accepted,
                            None => None,
                        },
                    },
                )
            } else {
                r == Ok::<RequestPlan, Error>(
                    RequestPlan::Unsegmented { advertised_max_apdu: advertised.unwrap() },
                )
            }
        }),
        r matches Err(Error::Segmentation(_)) ==> (peer matches Some(p) && (
        p.authoritative_segmentation == Some(Segmentation::NoSegmentation)
            || p.authoritative_segmentation == Some(Segmentation::Transmit))),
        (peer matches Some(p) && (p.authoritative_segmentation == Some(Segmentation::Receive)
            || p.authoritative_segmentation == Some(Segmentation::Both))) ==> !(r matches Err(
            Error::Segmentation(_),
        )),
        ({
            let t = target_transport_limit(transport_max_apdu, *target);
            let remote = remote_max_apdu(*peer, configured_max_apdu, t, routed_path_max_apdu);
            &&& r is Ok ==> MINIMUM_MESSAGE_SIZE <= remote <= t
            &&& r is Ok ==> remote <= peer_max_apdu(*peer, configured_max_apdu)
            &&& r matches Ok(RequestPlan::Unsegmented { advertised_max_apdu }) ==> service_data_len
                + UNSEGMENTED_REQUEST_HEADER <= remote && advertised_max_apdu <= t
            &&& r matches Ok(RequestPlan::Segmented { advertised_max_apdu, remote_max_apdu, .. })
                ==> remote_max_apdu == remote && service_data_len + UNSEGMENTED_REQUEST_HEADER > remote
                && advertised_max_apdu <= t
        }),
{
    let target_limit = target_transport_max_apdu_length(transport_max_apdu, target);
    let (peer_max, term, max_segments) = match peer {
        Some(p) => {
            let m: u16 = if p.max_apdu_length <= 0xFFFF { p.max_apdu_length as u16 } else { 0xFFFF };
            (m, LengthBoundedBy::DiscoveredPeer(m), p.max_segments_accepted)
        },
        None => (configured_max_apdu, LengthBoundedBy::LocalConfig(configured_max_apdu), None),
    };
    check_transmittable_length(term, target_limit)?;
    let combined = if peer_max <= target_limit { peer_max } else { target_limit };
    if let Some(p) = routed_path_max_apdu {
        if p < MINIMUM_MESSAGE_SIZE && p <= combined {
            let dnet = match target {
                ConfirmedTarget::Local { .. } => 0,
                ConfirmedTarget::Routed { dest_network, .. } => *dest_network,
            };
            return Err(Error::RoutedPathTooLong { dnet });
        }
    }
    let remote = match routed_path_max_apdu {
        Some(p) => if combined <= p { combined } else { p },
        None => combined,
    };
    let too_large = service_data_len > remote as usize || (remote as usize) - service_data_len
        < UNSEGMENTED_REQUEST_HEADER;
    if too_large {
        if let Some(p) = peer {
            match p.authoritative_segmentation {
                Some(Segmentation::NoSegmentation) | Some(Segmentation::Transmit) => {
                    let s = p.authoritative_segmentation.unwrap();
                    let mut m = String::from_str("request requires segmentation but the peer advertised ");
                    m.append(segmentation_text(s));
                    m.append(" and cannot receive segmented requests");
                    return Err(Error::Segmentation(m));
                },
                _ => {},
            }
        }
    }
    let advertised = advertised_max_apdu_length_for_target(configured_max_apdu, transport_max_apdu, target)?;
    if too_large {
        Ok(
            RequestPlan::Segmented {
                advertised_max_apdu: advertised,
                remote_max_apdu: remote,
                remote_max_segments: max_segments,
            },
        )
    } else {
        Ok(RequestPlan::Unsegmented { advertised_max_apdu: advertised })
    }
}

/// Only a peer that advertised, with authority, that it cannot receive
/// segmented requests (no segmentation, or segmented transmit only) has a
/// request that needs segments refused before anything is sent. A peer that
/// receives segments (segmented receive or both), a peer whose capability is
/// not authoritative, and an unknown peer are sent segments instead.
pub proof fn lemma_only_non_receiving_peers_refuse_segments(peer: Option<PeerCapability>)
    ensures
        refuses_segmented_requests(peer) ==> (peer matches Some(p) && (p.authoritative_segmentation
            == Some(Segmentation::NoSegmentation) || p.authoritative_segmentation == Some(
            Segmentation::Transmit,
        ))),
        (peer matches Some(p) && p.authoritative_segmentation == Some(Segmentation::Receive))
            ==> !refuses_segmented_requests(peer),
        (peer matches Some(p) && p.authoritative_segmentation == Some(Segmentation::Both))
            ==> !refuses_segmented_requests(peer),
        (peer matches Some(p) && p.authoritative_segmentation is None) ==> !refuses_segmented_requests(
            peer,
        ),
        peer is None ==> !refuses_segmented_requests(peer),
        (peer matches Some(p) && (p.authoritative_segmentation == Some(Segmentation::NoSegmentation)
            || p.authoritative_segmentation == Some(Segmentation::Transmit)))
            ==> refuses_segmented_requests(peer),
{
}

} // verus!
