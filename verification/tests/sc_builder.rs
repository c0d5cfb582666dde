use bacnet_client::builder::{ScClientBuilder, ScReconnectConfig, BROADCAST_VMAC};
use bacnet_client::error::Error;

#[test]
fn sc_client_builder_rejects_broadcast_vmac_and_zero_device_uuid() {
    let broadcast = ScClientBuilder::new()
        .vmac(BROADCAST_VMAC)
        .device_uuid([0xAB; 16])
        .validate_identity();
    assert!(matches!(
        broadcast,
        Err(Error::Encoding(message)) if message.contains("broadcast VMAC")
    ));

    let zero_uuid = ScClientBuilder::new()
        .vmac([0x22, 0x01, 0x02, 0x03, 0x04, 0x05])
        .validate_identity();
    assert!(matches!(
        zero_uuid,
        Err(Error::Encoding(message)) if message.contains("device_uuid")
    ));
}

#[test]
fn sc_client_builder_rejects_the_unknown_vmac_and_accepts_a_real_identity() {
    let unknown = ScClientBuilder::new().device_uuid([1; 16]).validate_identity();
    assert!(matches!(
        unknown,
        Err(Error::Encoding(message)) if message.contains("unknown VMAC")
    ));
    let good = ScClientBuilder::new()
        .vmac([0x22, 0x01, 0x02, 0x03, 0x04, 0x05])
        .device_uuid([1; 16])
        .hub_url("wss://hub.example/bacnet");
    assert!(good.validate_identity().is_ok());
    assert!(good.check_before_connect().is_ok());
    assert_eq!(good.hub_url, "wss://hub.example/bacnet");
    assert_eq!(good.heartbeat_interval_ms, 30_000);
    assert_eq!(good.heartbeat_timeout_ms, 60_000);
    let bad_segments = ScClientBuilder::new()
        .vmac([0x22, 0x01, 0x02, 0x03, 0x04, 0x05])
        .device_uuid([1; 16])
        .max_segments(Some(0));
    assert!(matches!(
        bad_segments.check_before_connect(),
        Err(Error::Encoding(message)) if message.contains("max-segments-accepted")
    ));
}

#[test]
fn sc_client_builder_rejects_invalid_reconnect_before_tls_lookup() {
    for max_retries in [0, 10] {
        for (initial_delay_ms, max_delay_ms) in [(0, 1), (1, 0), (0, 0), (2, 1)] {
            let error = ScClientBuilder::new()
                .vmac([0x22; 6])
                .device_uuid([0xAB; 16])
                .reconnect(ScReconnectConfig {
                    initial_delay_ms,
                    max_delay_ms,
                    max_retries,
                })
                .check_before_connect()
                .err()
                .expect("invalid reconnect must fail");
            assert!(
                matches!(&error, Error::OutOfRange(message) if message.contains("reconnect")),
                "expected reconnect error before TLS lookup, got {error:?}"
            );
        }
    }
}

#[test]
fn sc_client_builder_valid_reconnect_preserves_missing_tls_error() {
    for reconnect in [
        None,
        Some(ScReconnectConfig {
            initial_delay_ms: 1,
            max_delay_ms: 1,
            max_retries: 0,
        }),
        Some(ScReconnectConfig {
            initial_delay_ms: 1,
            max_delay_ms: 2,
            max_retries: u32::MAX,
        }),
    ] {
        let mut builder = ScClientBuilder::new().vmac([0x22; 6]).device_uuid([0xAB; 16]);
        if let Some(config) = reconnect {
            builder = builder.reconnect(config);
        }
        assert!(builder.check_before_connect().is_ok());
    }
}

#[test]
fn reconnect_errors_name_the_failing_delay() {
    let zero_initial = ScReconnectConfig { initial_delay_ms: 0, max_delay_ms: 0, max_retries: 1 };
    assert!(matches!(
        zero_initial.validate(),
        Err(Error::OutOfRange(m)) if m == "SC reconnect: initial_delay_ms must be at least 1"
    ));
    let zero_max = ScReconnectConfig { initial_delay_ms: 1, max_delay_ms: 0, max_retries: 1 };
    assert!(matches!(
        zero_max.validate(),
        Err(Error::OutOfRange(m)) if m == "SC reconnect: max_delay_ms must be at least 1"
    ));
    let inverted = ScReconnectConfig { initial_delay_ms: 26, max_delay_ms: 25, max_retries: 1 };
    assert!(matches!(
        inverted.validate(),
        Err(Error::OutOfRange(m)) if m == "SC reconnect: initial_delay_ms must not exceed max_delay_ms"
    ));
    let equal = ScReconnectConfig { initial_delay_ms: 25, max_delay_ms: 25, max_retries: 1 };
    assert!(equal.validate().is_ok());
    // An identity error still comes first.
    let unknown = ScClientBuilder::new().device_uuid([1; 16]).reconnect(inverted);
    assert!(matches!(unknown.check_before_connect(), Err(Error::Encoding(_))));
}

#[test]
fn sc_builder_starts_from_the_default_configuration_and_setters_keep_the_rest() {
    let b = ScClientBuilder::new();
    assert_eq!(b.config.apdu_timeout_ms, 6000);
    assert_eq!(b.config.max_apdu_length, 1476);
    assert_eq!(b.config.proposed_window_size, 1);
    assert_eq!(b.options.cov_channel_capacity, 64);
    assert_eq!(b.options.event_channel_capacity, 64);
    let b = b
        .reconnect(ScReconnectConfig { initial_delay_ms: 5, max_delay_ms: 10, max_retries: 3 })
        .cov_channel_capacity(8)
        .vmac([0x22; 6])
        .device_uuid([0xAB; 16])
        .hub_url("wss://hub")
        .apdu_timeout_ms(500);
    assert_eq!(b.options.cov_channel_capacity, 8);
    assert_eq!(b.reconnect, Some(ScReconnectConfig { initial_delay_ms: 5, max_delay_ms: 10, max_retries: 3 }));
    assert_eq!(b.vmac, [0x22; 6]);
    assert_eq!(b.device_uuid, [0xAB; 16]);
    assert_eq!(b.hub_url, "wss://hub");
    assert_eq!(b.config.apdu_timeout_ms, 500);
    assert_eq!(b.config.max_apdu_length, 1476);
}
