use bacnet_client::builder::{BipClientBuilder, ClientBuilder};
use bacnet_client::config::{prepare_start_config, ClientConfig, ClientOptions};
use bacnet_client::cov::AlwaysAck;
use bacnet_client::error::Error;
use bacnet_client::target::client_max_apdu_length;

#[test]
fn default_config_matches_the_documented_values() {
    let config = ClientConfig::default();
    assert_eq!(config.interface, [0, 0, 0, 0]);
    assert_eq!(config.port, 0xBAC0);
    assert_eq!(config.broadcast_address, [255, 255, 255, 255]);
    assert_eq!(config.apdu_timeout_ms, 6000);
    assert_eq!(config.apdu_retries, 3);
    assert_eq!(config.max_apdu_length, 1476);
    assert_eq!(config.max_segments, None);
    assert!(config.segmented_response_accepted);
    assert_eq!(config.proposed_window_size, 1);
}

#[test]
fn builders_set_apdu_tuning_options() {
    let builder = ClientBuilder::<u8, AlwaysAck>::new()
        .transport(5)
        .apdu_retries(7)
        .max_segments(Some(8))
        .segmented_response_accepted(false)
        .proposed_window_size(4);
    let (transport, config, _options) = builder.into_parts().unwrap();
    assert_eq!(transport, 5);
    assert_eq!(config.apdu_retries, 7);
    assert_eq!(config.max_segments, Some(8));
    assert!(!config.segmented_response_accepted);
    assert_eq!(config.proposed_window_size, 4);

    let bip = BipClientBuilder::new()
        .interface([127, 0, 0, 1])
        .port(0)
        .apdu_retries(7)
        .max_segments(Some(8))
        .segmented_response_accepted(false)
        .proposed_window_size(4);
    assert_eq!(bip.config.interface, [127, 0, 0, 1]);
    assert_eq!(bip.config.port, 0);
    assert_eq!(bip.config.apdu_retries, 7);
    assert_eq!(bip.config.proposed_window_size, 4);
}

#[test]
fn builder_without_transport_fails() {
    let builder = ClientBuilder::<u8, AlwaysAck>::new();
    assert!(matches!(builder.into_parts(), Err(Error::Encoding(_))));
}

#[test]
fn builder_rejects_invalid_proposed_window_size() {
    let builder = ClientBuilder::<u8, AlwaysAck>::new().transport(1).proposed_window_size(0);
    let (_, config, options) = builder.into_parts().unwrap();
    let e = prepare_start_config(config, 1497, &options).unwrap_err();
    assert_eq!(e.message(), "invalid proposed-window-size 0; expected 1..=127");
    let mut config = ClientConfig::default();
    config.proposed_window_size = 128;
    assert!(prepare_start_config(config, 1497, &ClientOptions::default()).is_err());
}

#[test]
fn start_config_caps_max_apdu_to_the_transport_bucket() {
    let config = prepare_start_config(ClientConfig::default(), 478, &ClientOptions::default()).unwrap();
    assert_eq!(config.max_apdu_length, 206);
    let config = prepare_start_config(ClientConfig::default(), 1497, &ClientOptions::default()).unwrap();
    assert_eq!(config.max_apdu_length, 1476);
    let e = prepare_start_config(ClientConfig::default(), 49, &ClientOptions::default()).unwrap_err();
    assert_eq!(e.message(), "transport max-APDU-length 49 leaves no valid BACnet APDU bucket");
}

#[test]
fn start_config_rejects_unusable_max_segments() {
    let mut config = ClientConfig::default();
    config.max_segments = Some(1);
    let e = prepare_start_config(config, 1497, &ClientOptions::default()).unwrap_err();
    assert!(e.message().contains("max-segments-accepted"));
    let mut config = ClientConfig::default();
    config.max_segments = Some(2);
    assert!(prepare_start_config(config, 1497, &ClientOptions::default()).is_ok());
}

#[test]
fn options_validate_channel_capacities() {
    let options = ClientOptions::default();
    assert_eq!(options.cov_channel_capacity, 64);
    assert_eq!(options.event_channel_capacity, 64);
    assert!(options.validate().is_ok());
    let e = ClientOptions::default().with_cov_channel_capacity(0).validate().unwrap_err();
    assert_eq!(e.message(), "invalid cov-channel-capacity 0; expected 1..=65536");
    assert!(ClientOptions::default().with_cov_channel_capacity(65_536).validate().is_ok());
    assert!(ClientOptions::default().with_cov_channel_capacity(65_537).validate().is_err());
    let e = ClientOptions::default().with_event_channel_capacity(0).validate().unwrap_err();
    assert_eq!(e.message(), "invalid event-channel-capacity 0; expected 1..=65536");
    let config = ClientConfig::default();
    assert!(prepare_start_config(config, 1497, &ClientOptions::default().with_cov_channel_capacity(0)).is_err());
}

#[test]
fn client_reports_the_live_transport_bucket() {
    assert_eq!(client_max_apdu_length(1476, 478), 206);
    assert_eq!(client_max_apdu_length(1024, 1497), 1024);
    assert_eq!(client_max_apdu_length(1476, 40), 0);
}
