use bacnet_client::error::Error;
use bacnet_client::routed_path::{
    decode_reject_message_to_network, forwarded_npci_len, routed_path_quarantine_horizon,
    validate_public_path, RoutedPathLimits, CONSERVATIVE_ROUTED_PATH_MAX_NPDU,
    MAX_ROUTED_PATH_ENTRIES,
};
use bacnet_client::target::ConfirmedTarget;

#[test]
fn conservative_and_configured_npdu_envelopes_use_forwarded_source() {
    let header = forwarded_npci_len(6, 6).unwrap();
    assert_eq!(header, 21);
    assert_eq!(CONSERVATIVE_ROUTED_PATH_MAX_NPDU - header, 207);
    assert_eq!(1497 - header, 1476);
    assert_eq!(forwarded_npci_len(1, 1).unwrap(), 11);
    assert_eq!(forwarded_npci_len(4, 6).unwrap(), 19);
}

#[test]
fn forwarded_npci_rejects_unrepresentable_addresses() {
    assert!(forwarded_npci_len(256, 6).is_err());
    assert!(forwarded_npci_len(6, 0).is_err());
    assert!(forwarded_npci_len(6, 256).is_err());
}

#[test]
fn hostile_paths_reclaim_idle_entries_at_capacity() {
    let mut limits = RoutedPathLimits::with_capacity(3, 10);
    let mut now = 0u64;
    for path in 1..=40u16 {
        let mac = path.to_be_bytes();
        assert!(limits.reserve_gate(&mac, path, now).is_ok());
        assert_eq!(limits.max_apdu(&mac, path, 255, 255).unwrap(), 0);
        limits.release(&mac, path, now);
        assert!(limits.len() <= 3);
        now += 1;
    }
    assert_eq!(limits.len(), 3);
}

fn learn_limit(limits: &mut RoutedPathLimits, router: &[u8], dnet: u16, apdu_len: usize) {
    let dadr = [9u8];
    let target = ConfirmedTarget::Routed { router_mac: router, dest_network: dnet, dest_mac: &dadr };
    limits.install_active(&target, router, 7, 1, 11, 0);
    assert!(limits.authorize_attempt(&target, router, 7, 1, apdu_len));
    let active = limits.claim_active(router, dnet, 1).unwrap();
    limits.commit_learned_limit(&active);
}

#[test]
fn configured_and_learned_evidence_are_never_evicted_for_capacity() {
    let mut limits = RoutedPathLimits::with_capacity(2, 10);
    assert!(limits.reserve_gate(&[1], 100, 0).is_ok());
    limits.configure(&[1], 100, 1497);
    limits.release(&[1], 100, 0);

    assert!(limits.reserve_gate(&[2], 200, 0).is_ok());
    learn_limit(&mut limits, &[2], 200, 289);
    limits.release(&[2], 200, 100);

    assert!(matches!(
        limits.reserve_gate(&[3], 300, 1_000),
        Err(Error::RoutedPathCapacityExceeded { capacity: 2 })
    ));
    assert_eq!(limits.len(), 2);
    assert_eq!(limits.max_apdu(&[1], 100, 6, 6).unwrap(), 1497 - 21);
    // learned exclusive bound 300: at most 299 octets, under the 228 envelope
    assert_eq!(limits.max_apdu(&[2], 200, 6, 6).unwrap(), 228 - 21);
}

#[test]
fn capacity_cleanup_never_splits_a_held_path() {
    let mut limits = RoutedPathLimits::with_capacity(2, 10);
    assert!(limits.reserve_gate(&[1], 100, 0).is_ok());
    assert!(limits.reserve_gate(&[2], 200, 0).is_ok());
    limits.release(&[2], 200, 0);

    assert!(limits.reserve_gate(&[3], 300, 0).is_ok());
    assert!(limits.has_path(&[1], 100));
    assert!(!limits.has_path(&[2], 200));
    assert!(limits.has_path(&[3], 300));
}

#[test]
fn least_recently_used_idle_path_is_reclaimed_first() {
    let mut limits = RoutedPathLimits::with_capacity(2, 10);
    assert!(limits.reserve_gate(&[1], 100, 0).is_ok());
    limits.release(&[1], 100, 0);
    assert!(limits.reserve_gate(&[2], 200, 0).is_ok());
    limits.release(&[2], 200, 0);
    // use path 1 again so path 2 becomes the older one
    assert!(limits.reserve_gate(&[1], 100, 0).is_ok());
    limits.release(&[1], 100, 0);

    assert!(limits.reserve_gate(&[3], 300, 0).is_ok());
    assert!(limits.has_path(&[1], 100));
    assert!(!limits.has_path(&[2], 200));
}

#[test]
fn learned_limit_only_tightens() {
    let mut limits = RoutedPathLimits::with_capacity(4, 10);
    assert!(limits.reserve_gate(&[5], 50, 0).is_ok());
    limits.configure(&[5], 50, 1497);
    learn_limit(&mut limits, &[5], 50, 589); // attempted 600
    assert_eq!(limits.max_apdu(&[5], 50, 1, 1).unwrap(), 599 - 11);
    learn_limit(&mut limits, &[5], 50, 989); // attempted 1000: no looser
    assert_eq!(limits.max_apdu(&[5], 50, 1, 1).unwrap(), 599 - 11);
    learn_limit(&mut limits, &[5], 50, 389); // attempted 400: tighter
    assert_eq!(limits.max_apdu(&[5], 50, 1, 1).unwrap(), 399 - 11);
}

#[test]
fn configure_discards_learned_and_clear_restores_conservative() {
    let mut limits = RoutedPathLimits::with_capacity(4, 10);
    assert!(limits.reserve_gate(&[6], 60, 0).is_ok());
    assert_eq!(limits.max_apdu(&[6], 60, 6, 6).unwrap(), 207);
    learn_limit(&mut limits, &[6], 60, 89); // attempted 100
    assert_eq!(limits.max_apdu(&[6], 60, 6, 6).unwrap(), 99 - 21);
    limits.configure(&[6], 60, 1000);
    assert_eq!(limits.max_apdu(&[6], 60, 6, 6).unwrap(), 1000 - 21);
    limits.clear(&[6], 60);
    assert_eq!(limits.max_apdu(&[6], 60, 6, 6).unwrap(), 207);
}

#[test]
fn control_received_before_activation_cannot_claim() {
    let mut limits = RoutedPathLimits::with_capacity(2, 10);
    let router = [2u8];
    let dadr = [3u8];
    let target = ConfirmedTarget::Routed { router_mac: &router, dest_network: 100, dest_mac: &dadr };
    assert!(limits.reserve_gate(&router, 100, 0).is_ok());
    limits.install_active(&target, &router, 9, 42, 11, 5);
    // not yet authorized: nothing to claim
    assert!(limits.claim_active(&router, 100, 6).is_none());
    assert!(limits.authorize_attempt(&target, &router, 9, 42, 100));
    let reject = [4u8, 0, 100];
    assert!(limits.claim_for_network_control(Some(3), &reject, &router, 5).is_none());
    // another reason or message type never claims
    assert!(limits.claim_for_network_control(Some(3), &[1, 0, 100], &router, 6).is_none());
    assert!(limits.claim_for_network_control(Some(2), &reject, &router, 6).is_none());
    let claimed = limits.claim_for_network_control(Some(3), &reject, &router, 6).unwrap();
    assert_eq!(claimed.invoke_id, 9);
    assert_eq!(claimed.owner, 42);
    assert_eq!(claimed.outgoing_apdu_len, Some(100));
    // claimed once only
    assert!(limits.claim_for_network_control(Some(3), &reject, &router, 7).is_none());
}

#[test]
fn authorization_requires_the_active_owner() {
    let mut limits = RoutedPathLimits::with_capacity(2, 10);
    let router = [2u8];
    let dadr = [3u8];
    let target = ConfirmedTarget::Routed { router_mac: &router, dest_network: 100, dest_mac: &dadr };
    let local = ConfirmedTarget::Local { mac: &router };
    assert!(limits.authorize_attempt(&local, &router, 1, 1, 100_000));
    assert!(limits.reserve_gate(&router, 100, 0).is_ok());
    assert!(!limits.authorize_attempt(&target, &router, 9, 42, 100));
    limits.install_active(&target, &router, 9, 42, 11, 0);
    assert!(!limits.authorize_attempt(&target, &router, 9, 43, 100));
    assert!(!limits.authorize_attempt(&target, &router, 8, 42, 100));
    assert!(!limits.authorize_attempt(&target, &router, 9, 42, 70_000));
    assert!(limits.authorize_attempt(&target, &router, 9, 42, 100));
}

#[test]
fn ambiguous_generation_is_quarantined_until_the_horizon() {
    let mut limits = RoutedPathLimits::with_capacity(2, 10);
    let router = [2u8];
    let dadr = [3u8];
    let target = ConfirmedTarget::Routed { router_mac: &router, dest_network: 100, dest_mac: &dadr };
    assert!(limits.reserve_gate(&router, 100, 0).is_ok());
    assert_eq!(limits.quarantine_remaining(&router, 100, 0), None);
    limits.install_active(&target, &router, 9, 42, 11, 0);
    assert!(limits.authorize_attempt(&target, &router, 9, 42, 100));
    limits.release(&router, 100, 1_000);

    assert!(limits.reserve_gate(&router, 100, 1_002).is_ok());
    assert_eq!(limits.quarantine_remaining(&router, 100, 1_004), Some(6));
    assert_eq!(limits.quarantine_remaining(&router, 100, 1_010), None);
    assert_eq!(limits.quarantine_remaining(&router, 100, 1_011), None);
}

#[test]
fn single_attempt_with_terminal_response_skips_quarantine() {
    let mut limits = RoutedPathLimits::with_capacity(2, 10);
    let router = [2u8];
    let dadr = [3u8];
    let target = ConfirmedTarget::Routed { router_mac: &router, dest_network: 100, dest_mac: &dadr };
    assert!(limits.reserve_gate(&router, 100, 0).is_ok());
    assert_eq!(limits.quarantine_remaining(&router, 100, 0), None);
    limits.install_active(&target, &router, 9, 42, 11, 0);
    assert!(limits.authorize_attempt(&target, &router, 9, 42, 100));
    limits.mark_terminal_observed(&router, 100);
    limits.release(&router, 100, 1_000);

    assert!(limits.reserve_gate(&router, 100, 1_001).is_ok());
    assert_eq!(limits.quarantine_remaining(&router, 100, 1_001), None);
}

#[test]
fn retried_generation_is_quarantined_even_with_terminal_response() {
    let mut limits = RoutedPathLimits::with_capacity(2, 10);
    let router = [2u8];
    let dadr = [3u8];
    let target = ConfirmedTarget::Routed { router_mac: &router, dest_network: 100, dest_mac: &dadr };
    assert!(limits.reserve_gate(&router, 100, 0).is_ok());
    assert_eq!(limits.quarantine_remaining(&router, 100, 0), None);
    limits.install_active(&target, &router, 9, 42, 11, 0);
    assert!(limits.authorize_attempt(&target, &router, 9, 42, 100));
    assert!(limits.authorize_attempt(&target, &router, 9, 42, 100));
    limits.mark_terminal_observed(&router, 100);
    limits.release(&router, 100, 1_000);

    assert!(limits.reserve_gate(&router, 100, 1_001).is_ok());
    assert_eq!(limits.quarantine_remaining(&router, 100, 1_001), Some(9));
}

#[test]
fn quarantine_horizon_covers_every_retry_and_is_never_zero() {
    assert_eq!(routed_path_quarantine_horizon(6000, 3), 24_000);
    assert_eq!(routed_path_quarantine_horizon(0, 3), 1);
    assert_eq!(routed_path_quarantine_horizon(u64::MAX, 1), u64::MAX);
}

#[test]
fn public_paths_need_a_router_mac_and_a_real_dnet() {
    assert!(validate_public_path(&[1], 1).is_ok());
    assert!(validate_public_path(&[1], 65534).is_ok());
    assert!(matches!(validate_public_path(&[], 1), Err(Error::Encoding(_))));
    assert!(matches!(validate_public_path(&[0u8; 256], 1), Err(Error::Encoding(_))));
    assert!(matches!(validate_public_path(&[1], 0), Err(Error::Encoding(_))));
    assert!(matches!(validate_public_path(&[1], 0xFFFF), Err(Error::Encoding(_))));
}

#[test]
fn reject_message_to_network_payload_decodes_reason_and_dnet() {
    assert_eq!(decode_reject_message_to_network(&[4, 0x01, 0x2C]), Some((4, 300)));
    assert_eq!(decode_reject_message_to_network(&[4, 0x01]), None);
}

#[test]
fn standard_table_holds_256_paths() {
    let limits = RoutedPathLimits::new(10);
    assert_eq!(MAX_ROUTED_PATH_ENTRIES, 256);
    assert_eq!(limits.len(), 0);
}

#[test]
fn configuring_a_public_path_sets_its_budget_and_clears_learned_evidence() {
    let mut limits = RoutedPathLimits::with_capacity(4, 10);
    assert!(matches!(
        limits.reserve_public_path(&[], 7, 0),
        Err(Error::Encoding(m)) if m == "immediate router MAC address must contain 1..=255 bytes"
    ));
    assert!(matches!(
        limits.reserve_public_path(&[1], 0xFFFF, 0),
        Err(Error::Encoding(m)) if m == "routed path DNET must be in 1..=65534"
    ));
    assert_eq!(limits.len(), 0);
    limits.reserve_public_path(&[1], 7, 1).unwrap();
    assert!(limits.has_path(&[1], 7));
    limits.configure(&[1], 7, 1497);
    limits.release(&[1], 7, 2);
    assert_eq!(limits.max_apdu(&[1], 7, 6, 6).unwrap(), 1476);
    // A 1472-octet request fits unsegmented within that budget.
    assert!(1472 <= limits.max_apdu(&[1], 7, 6, 6).unwrap());
    limits.reserve_public_path(&[1], 7, 3).unwrap();
    limits.clear(&[1], 7);
    limits.release(&[1], 7, 4);
    assert_eq!(limits.max_apdu(&[1], 7, 6, 6).unwrap(), CONSERVATIVE_ROUTED_PATH_MAX_NPDU - 21);
}
