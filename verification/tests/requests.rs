use bacnet_client::error::Error;
use bacnet_client::limits::{check_transmittable_length, LengthBoundedBy};
use bacnet_client::model::Segmentation;
use bacnet_client::request::{plan_confirmed_request, PeerCapability, RequestPlan};
use bacnet_client::target::ConfirmedTarget;

#[test]
fn conformant_lengths_pass() {
    for advertised in [50u16, 128, 206, 480, 1024, 1476] {
        assert!(
            check_transmittable_length(LengthBoundedBy::DiscoveredPeer(advertised), 1476).is_ok(),
            "{advertised} is at or above MinimumMessageSize"
        );
    }
}

#[test]
fn lengths_outside_the_encoded_set_are_not_rejected() {
    for advertised in [51u16, 600, 1500, u16::MAX] {
        assert!(
            check_transmittable_length(LengthBoundedBy::DiscoveredPeer(advertised), u16::MAX)
                .is_ok(),
            "{advertised} is conformant even though it is not one of the six encodings"
        );
    }
}

#[test]
fn the_error_names_the_binding_term() {
    let peer_bound =
        check_transmittable_length(LengthBoundedBy::DiscoveredPeer(3), 1476).unwrap_err();
    assert!(
        peer_bound.message().contains("peer's advertised"),
        "peer is the binding term here, got: {}",
        peer_bound.message()
    );

    let transport_bound =
        check_transmittable_length(LengthBoundedBy::DiscoveredPeer(1476), 48).unwrap_err();
    assert!(
        transport_bound.message().contains("transport's limit"),
        "transport is the binding term here and the peer is conformant, got: {}",
        transport_bound.message()
    );
    assert!(
        !transport_bound.message().contains("peer's advertised"),
        "must not blame a conformant peer for the transport's limit"
    );
}

#[test]
fn transmittable_length_message_is_exact() {
    let e = check_transmittable_length(LengthBoundedBy::LocalConfig(40), 1476).unwrap_err();
    assert_eq!(
        e.message(),
        "maximum transmittable length 40 is below the 50-octet MinimumMessageSize every BACnet \
         device accepts (Clause 5.2.1.2); the binding limit is this client's configured maximum of 40"
    );
}

fn peer(max_apdu: u32, segmentation: Option<Segmentation>, max_segments: Option<u32>) -> Option<PeerCapability> {
    Some(PeerCapability {
        max_apdu_length: max_apdu,
        max_segments_accepted: max_segments,
        authoritative_segmentation: segmentation,
    })
}

#[test]
fn small_request_goes_unsegmented_with_the_transport_bucket() {
    let mac = [1u8];
    let target = ConfirmedTarget::Local { mac: &mac };
    let plan = plan_confirmed_request(&target, 10, 1476, 1497, &None, None).unwrap();
    assert_eq!(plan, RequestPlan::Unsegmented { advertised_max_apdu: 1476 });
    // an SC transport budget of 478 advertises the 206 bucket
    let plan = plan_confirmed_request(&target, 10, 1476, 478, &None, None).unwrap();
    assert_eq!(plan, RequestPlan::Unsegmented { advertised_max_apdu: 206 });
}

#[test]
fn request_larger_than_the_peer_apdu_is_segmented_to_the_peer_limit() {
    let mac = [1u8];
    let target = ConfirmedTarget::Local { mac: &mac };
    let plan =
        plan_confirmed_request(&target, 200, 1476, 1497, &peer(128, Some(Segmentation::Both), Some(4)), None)
            .unwrap();
    assert_eq!(
        plan,
        RequestPlan::Segmented {
            advertised_max_apdu: 1476,
            remote_max_apdu: 128,
            remote_max_segments: Some(4)
        }
    );
    // exactly filling the APDU stays unsegmented
    let plan =
        plan_confirmed_request(&target, 124, 1476, 1497, &peer(128, Some(Segmentation::Both), None), None)
            .unwrap();
    assert_eq!(plan, RequestPlan::Unsegmented { advertised_max_apdu: 1476 });
}

#[test]
fn peer_that_cannot_receive_segments_is_refused_locally() {
    let mac = [1u8];
    let target = ConfirmedTarget::Local { mac: &mac };
    for capability in [Segmentation::NoSegmentation, Segmentation::Transmit] {
        let e = plan_confirmed_request(&target, 500, 1476, 1497, &peer(480, Some(capability), None), None)
            .unwrap_err();
        assert!(matches!(e, Error::Segmentation(_)));
    }
    let e = plan_confirmed_request(
        &target,
        500,
        1476,
        1497,
        &peer(480, Some(Segmentation::NoSegmentation), None),
        None,
    )
    .unwrap_err();
    assert_eq!(
        e.message(),
        "request requires segmentation but the peer advertised NONE and cannot receive segmented requests"
    );
    // a placeholder capability stays unknown and is segmented
    let plan = plan_confirmed_request(&target, 500, 1476, 1497, &peer(480, None, None), None).unwrap();
    assert!(matches!(plan, RequestPlan::Segmented { remote_max_apdu: 480, .. }));
    // a small request to a NONE peer is fine
    assert!(plan_confirmed_request(
        &target,
        10,
        1476,
        1497,
        &peer(480, Some(Segmentation::NoSegmentation), None),
        None
    )
    .is_ok());
}

#[test]
fn routed_path_budget_below_minimum_fails_with_routed_path_too_long() {
    let router = [2u8];
    let dadr = [3u8];
    let target = ConfirmedTarget::Routed { router_mac: &router, dest_network: 77, dest_mac: &dadr };
    let e = plan_confirmed_request(&target, 10, 1476, 1497, &None, Some(40)).unwrap_err();
    assert!(matches!(e, Error::RoutedPathTooLong { dnet: 77 }));
    // a routed budget above the minimum bounds the segments
    let plan = plan_confirmed_request(&target, 300, 1476, 1497, &None, Some(207)).unwrap();
    assert!(matches!(plan, RequestPlan::Segmented { remote_max_apdu: 207, .. }));
}

#[test]
fn subminimum_peer_limit_is_rejected_before_sending() {
    let mac = [1u8];
    let target = ConfirmedTarget::Local { mac: &mac };
    let e = plan_confirmed_request(&target, 10, 1476, 1497, &peer(40, None, None), None).unwrap_err();
    assert!(e.message().contains("peer's advertised"));
}
