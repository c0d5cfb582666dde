//! Client configuration and the checks it must pass before the client starts.

use vstd::prelude::*;
use vstd::string::*;

use crate::cov::{
    default_confirmed_cov_notification_ack_policy, AlwaysAck, ConfirmedCOVNotificationAckPolicy,
};
use crate::error::Error;
use crate::limits::{
    cap_max_apdu_to_transport, max_apdu_bucket, max_segments_message, no_bucket_message,
    validate_max_segments,
};
use crate::text::{decimal_chars, push_decimal};

verus! {

/// The BACnet/IP UDP port, 0xBAC0.
pub const DEFAULT_BACNET_PORT: u16 = 0xBAC0;

/// Default APDU timeout in milliseconds.
pub const DEFAULT_APDU_TIMEOUT_MS: u64 = 6000;

/// Default number of APDU retries.
pub const DEFAULT_APDU_RETRIES: u8 = 3;

/// Default maximum APDU length this client accepts.
pub const DEFAULT_MAX_APDU_LENGTH: u16 = 1476;

/// Default COV notification channel capacity.
pub const DEFAULT_COV_CHANNEL_CAPACITY: usize = 64;

/// Maximum COV notification channel capacity accepted at startup.
pub const MAX_COV_CHANNEL_CAPACITY: usize = 65_536;

/// Default event notification channel capacity, independent of COV.
pub const DEFAULT_EVENT_CHANNEL_CAPACITY: usize = 64;

/// Maximum event notification channel capacity accepted at startup.
pub const MAX_EVENT_CHANNEL_CAPACITY: usize = 65_536;

/// Device discovery event channel capacity.
pub const DEVICE_EVENT_CHANNEL_CAPACITY: usize = 64;

/// Client configuration.
#[derive(Debug)]
pub struct ClientConfig {
    /// Local IPv4 interface to bind, as four octets.
    pub interface: [u8; 4],
    /// UDP port (0 for ephemeral).
    pub port: u16,
    /// Directed broadcast IPv4 address, as four octets.
    pub broadcast_address: [u8; 4],
    /// APDU timeout in milliseconds.
    pub apdu_timeout_ms: u64,
    /// Number of APDU retries.
    pub apdu_retries: u8,
    /// Maximum APDU length this client accepts.
    pub max_apdu_length: u16,
    /// Maximum segments this client accepts (`None` = unspecified).
    ///
    /// Values 0 and 1 are invalid. Finite values between the BACnet wire
    /// encodings are conservatively rounded down (for example, 5 advertises 4).
    pub max_segments: Option<u8>,
    /// Whether this client accepts segmented responses.
    pub segmented_response_accepted: bool,
    /// Proposed window size for segmented transfers (1-127, default 1).
    pub proposed_window_size: u8,
}

/// The default client configuration.
pub open spec fn default_client_config() -> ClientConfig {
    ClientConfig {
        interface: [0u8, 0u8, 0u8, 0u8],
        port: DEFAULT_BACNET_PORT,
        broadcast_address: [255u8, 255u8, 255u8, 255u8],
        apdu_timeout_ms: DEFAULT_APDU_TIMEOUT_MS,
        apdu_retries: DEFAULT_APDU_RETRIES,
        max_apdu_length: DEFAULT_MAX_APDU_LENGTH,
        max_segments: None,
        segmented_response_accepted: true,
        proposed_window_size: 1,
    }
}

/// The default client options: default channel capacities, and every decoded
/// ConfirmedCOVNotification acknowledged.
pub open spec fn default_client_options() -> ClientOptions<AlwaysAck> {
    ClientOptions {
        cov_channel_capacity: DEFAULT_COV_CHANNEL_CAPACITY,
        event_channel_capacity: DEFAULT_EVENT_CHANNEL_CAPACITY,
        confirmed_cov_notification_ack_policy: AlwaysAck,
    }
}

impl Default for ClientConfig {
    fn default() -> (r: Self)
        ensures
            r == default_client_config(),
            r.interface@ == seq![0u8, 0u8, 0u8, 0u8],
            r.port == DEFAULT_BACNET_PORT,
            r.broadcast_address@ == seq![255u8, 255u8, 255u8, 255u8],
            r.apdu_timeout_ms == DEFAULT_APDU_TIMEOUT_MS,
            r.apdu_retries == DEFAULT_APDU_RETRIES,
            r.max_apdu_length == DEFAULT_MAX_APDU_LENGTH,
            r.max_segments is None,
            r.segmented_response_accepted,
            r.proposed_window_size == 1,
    {
        ClientConfig {
            interface: [0, 0, 0, 0],
            port: DEFAULT_BACNET_PORT,
            broadcast_address: [255, 255, 255, 255],
            apdu_timeout_ms: DEFAULT_APDU_TIMEOUT_MS,
            apdu_retries: DEFAULT_APDU_RETRIES,
            max_apdu_length: DEFAULT_MAX_APDU_LENGTH,
            max_segments: None,
            segmented_response_accepted: true,
            proposed_window_size: 1,
        }
    }
}

/// Additional client startup options.
#[derive(Debug)]
pub struct ClientOptions<P> {
    /// Capacity of the COV notification channel.
    pub cov_channel_capacity: usize,
    /// Capacity of the event notification channel.
    pub event_channel_capacity: usize,
    /// How decoded ConfirmedCOVNotifications are answered.
    pub confirmed_cov_notification_ack_policy: P,
}

impl Default for ClientOptions<AlwaysAck> {
    fn default() -> (r: Self)
        ensures
            r == default_client_options(),
            r.cov_channel_capacity == DEFAULT_COV_CHANNEL_CAPACITY,
            r.event_channel_capacity == DEFAULT_EVENT_CHANNEL_CAPACITY,
    {
        ClientOptions {
            cov_channel_capacity: DEFAULT_COV_CHANNEL_CAPACITY,
            event_channel_capacity: DEFAULT_EVENT_CHANNEL_CAPACITY,
            confirmed_cov_notification_ack_policy: default_confirmed_cov_notification_ack_policy(),
        }
    }
}

/// Message of the error for a COV channel capacity out of range.
pub open spec fn cov_capacity_message(capacity: usize) -> Seq<char> {
    "invalid cov-channel-capacity "@ + decimal_chars(capacity as nat) + "; expected 1..=65536"@
}

/// Message of the error for an event channel capacity out of range.
pub open spec fn event_capacity_message(capacity: usize) -> Seq<char> {
    "invalid event-channel-capacity "@ + decimal_chars(capacity as nat) + "; expected 1..=65536"@
}

impl<P: ConfirmedCOVNotificationAckPolicy> ClientOptions<P> {
    /// Set the COV notification channel capacity.
    pub fn with_cov_channel_capacity(self, capacity: usize) -> (r: Self)
        ensures
            r.cov_channel_capacity == capacity,
            r.event_channel_capacity == self.event_channel_capacity,
            r.confirmed_cov_notification_ack_policy == self.confirmed_cov_notification_ack_policy,
    {
        ClientOptions { cov_channel_capacity: capacity, ..self }
    }

    /// Set the event notification channel capacity; values outside
    /// `1..=MAX_EVENT_CHANNEL_CAPACITY` fail at startup.
    pub fn with_event_channel_capacity(self, capacity: usize) -> (r: Self)
        ensures
            r.cov_channel_capacity == self.cov_channel_capacity,
            r.event_channel_capacity == capacity,
            r.confirmed_cov_notification_ack_policy == self.confirmed_cov_notification_ack_policy,
    {
        ClientOptions { event_channel_capacity: capacity, ..self }
    }

    /// Choose how decoded ConfirmedCOVNotifications are answered.
    pub fn with_confirmed_cov_notification_ack_policy<Q: ConfirmedCOVNotificationAckPolicy>(
        self,
        policy: Q,
    ) -> (r: ClientOptions<Q>)
        ensures
            r.cov_channel_capacity == self.cov_channel_capacity,
            r.event_channel_capacity == self.event_channel_capacity,
            r.confirmed_cov_notification_ack_policy == policy,
    {
        ClientOptions {
            cov_channel_capacity: self.cov_channel_capacity,
            event_channel_capacity: self.event_channel_capacity,
            confirmed_cov_notification_ack_policy: policy,
        }
    }

    /// Check both channel capacities, the COV one first.
    pub fn validate(&self) -> (r: Result<(), Error>)
        ensures
            !(1 <= self.cov_channel_capacity <= MAX_COV_CHANNEL_CAPACITY) ==> (r matches Err(
                Error::Encoding(m),
            ) && m@ == cov_capacity_message(self.cov_channel_capacity)),
            (1 <= self.cov_channel_capacity <= MAX_COV_CHANNEL_CAPACITY) && !(1
                <= self.event_channel_capacity <= MAX_EVENT_CHANNEL_CAPACITY) ==> (r matches Err(
                Error::Encoding(m),
            ) && m@ == event_capacity_message(self.event_channel_capacity)),
            r is Ok <==> (1 <= self.cov_channel_capacity <= MAX_COV_CHANNEL_CAPACITY && 1
                <= self.event_channel_capacity <= MAX_EVENT_CHANNEL_CAPACITY),
    {
        if self.cov_channel_capacity < 1 || self.cov_channel_capacity > MAX_COV_CHANNEL_CAPACITY {
            let mut m = String::from_str("invalid cov-channel-capacity ");
            push_decimal(&mut m, self.cov_channel_capacity as u64);
            m.append("; expected 1..=65536");
            return Err(Error::Encoding(m));
        }
        if self.event_channel_capacity < 1 || self.event_channel_capacity > MAX_EVENT_CHANNEL_CAPACITY {
            let mut m = String::from_str("invalid event-channel-capacity ");
            push_decimal(&mut m, self.event_channel_capacity as u64);
            m.append("; expected 1..=65536");
            return Err(Error::Encoding(m));
        }
        Ok(())
    }
}

/// Message of the error for a proposed window size outside 1..=127.
pub open spec fn window_size_message(w: u8) -> Seq<char> {
    "invalid proposed-window-size "@ + decimal_chars(w as nat) + "; expected 1..=127"@
}

/// Check a configuration and options before the client starts, and cap the
/// configured max-APDU length to the transport's limit, rounded down to a
/// bucket.
///
/// The checks come in this order: max-segments, the max-APDU bucket, the
/// proposed window size, the options.
pub fn prepare_start_config<P: ConfirmedCOVNotificationAckPolicy>(
    config: ClientConfig,
    transport_max_apdu: u16,
    options: &ClientOptions<P>,
) -> (r: Result<ClientConfig, Error>)
    ensures
        ({
            let limit = if config.max_apdu_length <= transport_max_apdu {
                config.max_apdu_length
            } else {
                transport_max_apdu
            };
            let w = config.proposed_window_size;
            let options_ok = 1 <= options.cov_channel_capacity <= MAX_COV_CHANNEL_CAPACITY && 1
                <= options.event_channel_capacity <= MAX_EVENT_CHANNEL_CAPACITY;
            if (config.max_segments matches Some(n) && n < 2) {
                r matches Err(Error::Encoding(m)) && m@ == max_segments_message(
                    config.max_segments.unwrap(),
                )
            } else if max_apdu_bucket(limit) is None {
                r matches Err(Error::Encoding(m)) && m@ == no_bucket_message(transport_max_apdu)
            } else if !(1 <= w <= 127) {
                r matches Err(Error::Encoding(m)) && m@ == window_size_message(w)
            } else if !(1 <= options.cov_channel_capacity <= MAX_COV_CHANNEL_CAPACITY) {
                r matches Err(Error::Encoding(m)) && m@ == cov_capacity_message(
                    options.cov_channel_capacity,
                )
            } else if !options_ok {
                r matches Err(Error::Encoding(m)) && m@ == event_capacity_message(
                    options.event_channel_capacity,
                )
            } else {
                r matches Ok(c) && c.max_apdu_length == max_apdu_bucket(limit).unwrap()
                    && c.max_segments == config.max_segments && c.apdu_timeout_ms
                    == config.apdu_timeout_ms && c.apdu_retries == config.apdu_retries
                    && c.segmented_response_accepted == config.segmented_response_accepted
                    && c.proposed_window_size == w && c.port == config.port && c.interface@
                    == config.interface@ && c.broadcast_address@ == config.broadcast_address@
            }
        }),
{
    validate_max_segments(config.max_segments)?;
    let capped = cap_max_apdu_to_transport(config.max_apdu_length, transport_max_apdu)?;
    let w = config.proposed_window_size;
    if w < 1 || w > 127 {
        let mut m = String::from_str("invalid proposed-window-size ");
        push_decimal(&mut m, w as u64);
        m.append("; expected 1..=127");
        return Err(Error::Encoding(m));
    }
    options.validate()?;
    Ok(ClientConfig { max_apdu_length: capped, ..config })
}

} // verus!
