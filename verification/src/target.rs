//! Where a confirmed request goes: a directly reachable MAC or a peer behind
//! a router.

use vstd::prelude::*;

use crate::error::Error;
use crate::limits::{
    cap_max_apdu_to_transport, is_encodable_max_apdu, lemma_max_apdu_bucket_is_greatest, max_apdu_bucket,
    no_bucket_message,
};

verus! {

/// Routing target for confirmed requests.
#[derive(Clone, Copy)]
pub enum ConfirmedTarget<'a> {
    /// A peer on the local network, addressed by its MAC.
    Local { mac: &'a [u8] },
    /// A peer on network `dest_network` with MAC `dest_mac`, reached through
    /// the router at `router_mac`.
    Routed { router_mac: &'a [u8], dest_network: u16, dest_mac: &'a [u8] },
}

impl<'a> ConfirmedTarget<'a> {
    /// Octets the NPDU header grows by when the request carries DNET/DADR.
    pub open spec fn header_growth(self) -> u16 {
        match self {
            ConfirmedTarget::Local { .. } => 0,
            ConfirmedTarget::Routed { dest_mac, .. } => {
                let len = if dest_mac@.len() <= 0xFFFF { dest_mac@.len() as int } else { 0xFFFF };
                if len + 4 <= 0xFFFF { (len + 4) as u16 } else { 0xFFFFu16 }
            },
        }
    }

    /// The extra NPDU header octets (DNET, DLEN, DADR, hop count) of a routed request.
    pub fn additional_npdu_header_len(&self) -> (r: u16)
        ensures
            r == self.header_growth(),
    {
        match self {
            ConfirmedTarget::Local { .. } => 0,
            ConfirmedTarget::Routed { dest_mac, .. } => {
                let len: u16 = if dest_mac.len() <= 0xFFFF { dest_mac.len() as u16 } else { 0xFFFF };
                if len <= 0xFFFF - 4 { len + 4 } else { 0xFFFF }
            },
        }
    }

    /// The MAC the next hop is reached at: the peer itself, or its router.
    pub open spec fn next_hop(self) -> Seq<u8> {
        match self {
            ConfirmedTarget::Local { mac } => mac@,
            ConfirmedTarget::Routed { router_mac, .. } => router_mac@,
        }
    }

    /// The MAC used for transaction matching.
    pub fn tsm_mac(&self) -> (r: &'a [u8])
        ensures
            r@ == self.next_hop(),
    {
        match self {
            ConfirmedTarget::Local { mac } => mac,
            ConfirmedTarget::Routed { router_mac, .. } => router_mac,
        }
    }
}

/// The transport's APDU budget for `target`, after its routed header.
pub open spec fn target_transport_limit(transport_max_apdu: u16, target: ConfirmedTarget) -> u16 {
    if transport_max_apdu >= target.header_growth() {
        (transport_max_apdu - target.header_growth()) as u16
    } else {
        0
    }
}

/// The APDU budget the transport leaves for a request to `target`.
pub fn target_transport_max_apdu_length(transport_max_apdu: u16, target: &ConfirmedTarget) -> (r: u16)
    ensures
        r == target_transport_limit(transport_max_apdu, *target),
{
    transport_max_apdu.saturating_sub(target.additional_npdu_header_len())
}

/// The max-APDU length this client advertises in a request to `target`: its
/// configured maximum, capped by the transport budget and rounded down to an
/// encodable bucket.
pub fn advertised_max_apdu_length_for_target(
    configured_max_apdu: u16,
    transport_max_apdu: u16,
    target: &ConfirmedTarget,
) -> (r: Result<u16, Error>)
    ensures
        ({
            let t = target_transport_limit(transport_max_apdu, *target);
            let limit = if configured_max_apdu <= t { configured_max_apdu } else { t };
            match max_apdu_bucket(limit) {
                Some(v) => r == Ok::<u16, Error>(v),
                None => r matches Err(Error::Encoding(m)) && m@ == no_bucket_message(t),
            }
        }),
{
    cap_max_apdu_to_transport(
        configured_max_apdu,
        target_transport_max_apdu_length(transport_max_apdu, target),
    )
}

/// The target of a request to a discovered device: through its router when
/// the table recorded a DNET/DADR for it, otherwise directly at its MAC.
pub fn device_target<'a>(mac: &'a [u8], routing: &'a Option<(u16, Vec<u8>)>) -> (r: ConfirmedTarget<'a>)
    ensures
        match *routing {
            Some((dnet, dadr)) => r matches ConfirmedTarget::Routed { router_mac, dest_network, dest_mac }
                && router_mac@ == mac@ && dest_network == dnet && dest_mac@ == dadr@,
            None => r matches ConfirmedTarget::Local { mac: m } && m@ == mac@,
        },
{
    match routing {
        Some((dnet, dadr)) => ConfirmedTarget::Routed {
            router_mac: mac,
            dest_network: *dnet,
            dest_mac: dadr.as_slice(),
        },
        None => ConfirmedTarget::Local { mac },
    }
}

/// The max-APDU bucket a client advertises with a configured maximum of
/// `configured` octets over a transport whose budget is `transport` octets.
pub open spec fn client_max_apdu(configured: u16, transport: u16) -> u16 {
    match max_apdu_bucket(if configured <= transport { configured } else { transport }) {
        Some(v) => v,
        None => 0,
    }
}

/// The advertised max-APDU is the greatest encodable length within both the
/// configured maximum and the transport budget, or 0 when none is; it never
/// grows when the transport budget shrinks.
pub proof fn lemma_client_max_apdu(configured: u16, transport: u16, smaller_transport: u16)
    requires
        smaller_transport <= transport,
    ensures
        client_max_apdu(configured, transport) == 0 ==> forall|w: u16|
            is_encodable_max_apdu(w) ==> w > configured || w > transport,
        client_max_apdu(configured, transport) != 0 ==> {
            let r = client_max_apdu(configured, transport);
            &&& is_encodable_max_apdu(r)
            &&& r <= configured
            &&& r <= transport
            &&& forall|w: u16| is_encodable_max_apdu(w) && w <= configured && w <= transport ==> w <= r
        },
        client_max_apdu(configured, smaller_transport) <= client_max_apdu(configured, transport),
{
    lemma_max_apdu_bucket_is_greatest(if configured <= transport { configured } else { transport });
    lemma_max_apdu_bucket_is_greatest(
        if configured <= smaller_transport { configured } else { smaller_transport },
    );
}

/// The max-APDU bucket the client currently advertises: its configured
/// maximum capped by the live transport budget, or 0 when no bucket fits.
pub fn client_max_apdu_length(configured_max_apdu: u16, transport_max_apdu: u16) -> (r: u16)
    ensures
        r == client_max_apdu(configured_max_apdu, transport_max_apdu),
        r == match max_apdu_bucket(
            if configured_max_apdu <= transport_max_apdu { configured_max_apdu } else { transport_max_apdu },
        ) {
            Some(v) => v,
            None => 0,
        },
{
    let limit = if configured_max_apdu <= transport_max_apdu { configured_max_apdu } else { transport_max_apdu };
    match crate::limits::max_apdu_bucket_at_or_below(limit) {
        Some(v) => v,
        None => 0,
    }
}

} // verus!
