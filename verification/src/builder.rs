//! Builders that collect a client's configuration and options before it
//! starts.

use vstd::prelude::*;
use vstd::string::*;

use crate::config::{
    cov_capacity_message, default_client_config, default_client_options, event_capacity_message,
    ClientConfig, ClientOptions,
};
use crate::cov::{AlwaysAck, ConfirmedCOVNotificationAckPolicy};
use crate::error::Error;
use crate::limits::{max_segments_message, validate_max_segments};

verus! {

/// The all-zero VMAC, reserved to mean "unknown".
pub const UNKNOWN_VMAC: [u8; 6] = [0, 0, 0, 0, 0, 0];

/// The all-ones VMAC, reserved for broadcast.
pub const BROADCAST_VMAC: [u8; 6] = [0xFF, 0xFF, 0xFF, 0xFF, 0xFF, 0xFF];

/// Default BACnet/SC heartbeat interval in milliseconds.
pub const DEFAULT_HEARTBEAT_INTERVAL_MS: u64 = 30_000;

/// Default BACnet/SC heartbeat timeout in milliseconds.
pub const DEFAULT_HEARTBEAT_TIMEOUT_MS: u64 = 60_000;

/// Builder for a client over a transport the caller already built.
pub struct ClientBuilder<T, P> {
    pub config: ClientConfig,
    pub options: ClientOptions<P>,
    pub transport: Option<T>,
}

impl<T> ClientBuilder<T, AlwaysAck> {
    /// A builder with the default configuration and options and no transport.
    pub fn new() -> (r: Self)
        ensures
            r.transport is None,
            r.config == default_client_config(),
            r.options == default_client_options(),
            r.config.apdu_timeout_ms == crate::config::DEFAULT_APDU_TIMEOUT_MS,
            r.config.max_apdu_length == crate::config::DEFAULT_MAX_APDU_LENGTH,
            r.config.proposed_window_size == 1,
            r.options.cov_channel_capacity == crate::config::DEFAULT_COV_CHANNEL_CAPACITY,
            r.options.event_channel_capacity == crate::config::DEFAULT_EVENT_CHANNEL_CAPACITY,
    {
        ClientBuilder { config: ClientConfig::default(), options: ClientOptions::default(), transport: None }
    }
}

impl<T, P: ConfirmedCOVNotificationAckPolicy> ClientBuilder<T, P> {
    /// Set the pre-built transport.
    pub fn transport(self, transport: T) -> (r: Self)
        ensures
            r.config == self.config,
            r.options == self.options,
            r.transport == Some(transport),
    {
        ClientBuilder { transport: Some(transport), ..self }
    }

    /// Set the APDU timeout in milliseconds.
    pub fn apdu_timeout_ms(self, ms: u64) -> (r: Self)
        ensures
            r.config == (ClientConfig { apdu_timeout_ms: ms, ..self.config }),
            r.options == self.options,
            r.transport == self.transport,
    {
        let mut b = self;
        b.config.apdu_timeout_ms = ms;
        b
    }

    /// Set the maximum APDU length this client accepts.
    pub fn max_apdu_length(self, len: u16) -> (r: Self)
        ensures
            r.config == (ClientConfig { max_apdu_length: len, ..self.config }),
            r.options == self.options,
            r.transport == self.transport,
    {
        let mut b = self;
        b.config.max_apdu_length = len;
        b
    }

    /// Set the number of APDU retries before a confirmed request times out.
    pub fn apdu_retries(self, retries: u8) -> (r: Self)
        ensures
            r.config == (ClientConfig { apdu_retries: retries, ..self.config }),
            r.options == self.options,
            r.transport == self.transport,
    {
        let mut b = self;
        b.config.apdu_retries = retries;
        b
    }

    /// Set the maximum number of APDU segments this client accepts.
    pub fn max_segments(self, max_segments: Option<u8>) -> (r: Self)
        ensures
            r.config == (ClientConfig { max_segments: max_segments, ..self.config }),
            r.options == self.options,
            r.transport == self.transport,
    {
        let mut b = self;
        b.config.max_segments = max_segments;
        b
    }

    /// Set whether this client accepts segmented responses.
    pub fn segmented_response_accepted(self, accepted: bool) -> (r: Self)
        ensures
            r.config == (ClientConfig { segmented_response_accepted: accepted, ..self.config }),
            r.options == self.options,
            r.transport == self.transport,
    {
        let mut b = self;
        b.config.segmented_response_accepted = accepted;
        b
    }

    /// Set the proposed segmented-transfer window size.
    pub fn proposed_window_size(self, window_size: u8) -> (r: Self)
        ensures
            r.config == (ClientConfig { proposed_window_size: window_size, ..self.config }),
            r.options == self.options,
            r.transport == self.transport,
    {
        let mut b = self;
        b.config.proposed_window_size = window_size;
        b
    }

    /// Set the COV notification channel capacity.
    pub fn cov_channel_capacity(self, capacity: usize) -> (r: Self)
        ensures
            r.config == self.config,
            r.options == (ClientOptions { cov_channel_capacity: capacity, ..self.options }),
            r.transport == self.transport,
    {
        let mut b = self;
        b.options.cov_channel_capacity = capacity;
        b
    }

    /// Set the response policy for decoded ConfirmedCOVNotifications.
    pub fn confirmed_cov_notification_ack_policy<Q: ConfirmedCOVNotificationAckPolicy>(
        self,
        policy: Q,
    ) -> (r: ClientBuilder<T, Q>)
        ensures
            r.config == self.config,
            r.options.cov_channel_capacity == self.options.cov_channel_capacity,
            r.options.event_channel_capacity == self.options.event_channel_capacity,
            r.options.confirmed_cov_notification_ack_policy == policy,
            r.transport == self.transport,
    {
        ClientBuilder {
            config: self.config,
            options: self.options.with_confirmed_cov_notification_ack_policy(policy),
            transport: self.transport,
        }
    }

    /// What the client starts with, or an error when no transport was set.
    pub fn into_parts(self) -> (r: Result<(T, ClientConfig, ClientOptions<P>), Error>)
        ensures
            match self.transport {
                Some(t) => r matches Ok(parts) && parts.0 == t && parts.1 == self.config && parts.2
                    == self.options,
                None => r matches Err(Error::Encoding(m)) && m@ == "transport not set on ClientBuilder"@,
            },
    {
        match self.transport {
            Some(t) => Ok((t, self.config, self.options)),
            None => Err(Error::Encoding(String::from_str("transport not set on ClientBuilder"))),
        }
    }
}

/// BACnet/IP builder: interface, port and broadcast address.
pub struct BipClientBuilder<P> {
    pub config: ClientConfig,
    pub options: ClientOptions<P>,
}

impl BipClientBuilder<AlwaysAck> {
    /// A builder with the default configuration and options.
    pub fn new() -> (r: Self)
        ensures
            r.config == default_client_config(),
            r.options == default_client_options(),
            r.config.port == crate::config::DEFAULT_BACNET_PORT,
            r.config.apdu_timeout_ms == crate::config::DEFAULT_APDU_TIMEOUT_MS,
            r.config.max_apdu_length == crate::config::DEFAULT_MAX_APDU_LENGTH,
            r.config.proposed_window_size == 1,
            r.options.cov_channel_capacity == crate::config::DEFAULT_COV_CHANNEL_CAPACITY,
            r.options.event_channel_capacity == crate::config::DEFAULT_EVENT_CHANNEL_CAPACITY,
    {
        BipClientBuilder { config: ClientConfig::default(), options: ClientOptions::default() }
    }
}

impl<P: ConfirmedCOVNotificationAckPolicy> BipClientBuilder<P> {
    /// Set the local interface IPv4 address.
    pub fn interface(self, ip: [u8; 4]) -> (r: Self)
        ensures
            r.config == (ClientConfig { interface: ip, ..self.config }),
            r.options == self.options,
    {
        let mut b = self;
        b.config.interface = ip;
        b
    }

    /// Set the UDP port (0 for ephemeral).
    pub fn port(self, port: u16) -> (r: Self)
        ensures
            r.config == (ClientConfig { port: port, ..self.config }),
            r.options == self.options,
    {
        let mut b = self;
        b.config.port = port;
        b
    }

    /// Set the directed broadcast address.
    pub fn broadcast_address(self, addr: [u8; 4]) -> (r: Self)
        ensures
            r.config == (ClientConfig { broadcast_address: addr, ..self.config }),
            r.options == self.options,
    {
        let mut b = self;
        b.config.broadcast_address = addr;
        b
    }

    /// Set the APDU timeout in milliseconds.
    pub fn apdu_timeout_ms(self, ms: u64) -> (r: Self)
        ensures
            r.config == (ClientConfig { apdu_timeout_ms: ms, ..self.config }),
            r.options == self.options,
    {
        let mut b = self;
        b.config.apdu_timeout_ms = ms;
        b
    }

    /// Set the maximum APDU length this client accepts.
    pub fn max_apdu_length(self, len: u16) -> (r: Self)
        ensures
            r.config == (ClientConfig { max_apdu_length: len, ..self.config }),
            r.options == self.options,
    {
        let mut b = self;
        b.config.max_apdu_length = len;
        b
    }

    /// Set the number of APDU retries before a confirmed request times out.
    pub fn apdu_retries(self, retries: u8) -> (r: Self)
        ensures
            r.config == (ClientConfig { apdu_retries: retries, ..self.config }),
            r.options == self.options,
    {
        let mut b = self;
        b.config.apdu_retries = retries;
        b
    }

    /// Set the maximum number of APDU segments this client accepts.
    pub fn max_segments(self, max_segments: Option<u8>) -> (r: Self)
        ensures
            r.config == (ClientConfig { max_segments: max_segments, ..self.config }),
            r.options == self.options,
    {
        let mut b = self;
        b.config.max_segments = max_segments;
        b
    }

    /// Set whether this client accepts segmented responses.
    pub fn segmented_response_accepted(self, accepted: bool) -> (r: Self)
        ensures
            r.config == (ClientConfig { segmented_response_accepted: accepted, ..self.config }),
            r.options == self.options,
    {
        let mut b = self;
        b.config.segmented_response_accepted = accepted;
        b
    }

    /// Set the proposed segmented-transfer window size.
    pub fn proposed_window_size(self, window_size: u8) -> (r: Self)
        ensures
            r.config == (ClientConfig { proposed_window_size: window_size, ..self.config }),
            r.options == self.options,
    {
        let mut b = self;
        b.config.proposed_window_size = window_size;
        b
    }

    /// Set the COV notification channel capacity.
    pub fn cov_channel_capacity(self, capacity: usize) -> (r: Self)
        ensures
            r.config == self.config,
            r.options == (ClientOptions { cov_channel_capacity: capacity, ..self.options }),
    {
        let mut b = self;
        b.options.cov_channel_capacity = capacity;
        b
    }

    /// Set the response policy for decoded ConfirmedCOVNotifications.
    pub fn confirmed_cov_notification_ack_policy<Q: ConfirmedCOVNotificationAckPolicy>(
        self,
        policy: Q,
    ) -> (r: BipClientBuilder<Q>)
        ensures
            r.config == self.config,
            r.options.cov_channel_capacity == self.options.cov_channel_capacity,
            r.options.event_channel_capacity == self.options.event_channel_capacity,
            r.options.confirmed_cov_notification_ack_policy == policy,
    {
        BipClientBuilder {
            config: self.config,
            options: self.options.with_confirmed_cov_notification_ack_policy(policy),
        }
    }
}

/// Automatic reconnection of a BACnet/SC client to its hub: the first and
/// the largest delay between attempts, and how many attempts to make.
#[derive(Clone, Copy, Debug, PartialEq, Eq, Structural)]
pub struct ScReconnectConfig {
    pub initial_delay_ms: u64,
    pub max_delay_ms: u64,
    pub max_retries: u32,
}

/// The message that rejects reconnection settings `c`, or `None` when both
/// delays are positive and the initial delay does not exceed the largest.
pub open spec fn reconnect_message(c: ScReconnectConfig) -> Option<Seq<char>> {
    if c.initial_delay_ms == 0 {
        Some("SC reconnect: initial_delay_ms must be at least 1"@)
    } else if c.max_delay_ms == 0 {
        Some("SC reconnect: max_delay_ms must be at least 1"@)
    } else if c.initial_delay_ms > c.max_delay_ms {
        Some("SC reconnect: initial_delay_ms must not exceed max_delay_ms"@)
    } else {
        None
    }
}

impl ScReconnectConfig {
    /// Reject a zero delay and an initial delay above the largest one.
    pub fn validate(&self) -> (r: Result<(), Error>)
        ensures
            match reconnect_message(*self) {
                Some(m) => r matches Err(Error::OutOfRange(x)) && x@ == m,
                None => r is Ok,
            },
    {
        if self.initial_delay_ms == 0 {
            return Err(
                Error::OutOfRange(String::from_str("SC reconnect: initial_delay_ms must be at least 1")),
            );
        }
        if self.max_delay_ms == 0 {
            return Err(
                Error::OutOfRange(String::from_str("SC reconnect: max_delay_ms must be at least 1")),
            );
        }
        if self.initial_delay_ms > self.max_delay_ms {
            return Err(
                Error::OutOfRange(
                    String::from_str("SC reconnect: initial_delay_ms must not exceed max_delay_ms"),
                ),
            );
        }
        Ok(())
    }
}

/// BACnet/SC builder: hub, identity, heartbeat and reconnection settings.
pub struct ScClientBuilder<P> {
    pub config: ClientConfig,
    pub options: ClientOptions<P>,
    pub hub_url: String,
    pub vmac: [u8; 6],
    pub device_uuid: [u8; 16],
    pub heartbeat_interval_ms: u64,
    pub heartbeat_timeout_ms: u64,
    /// Automatic reconnection, when enabled.
    pub reconnect: Option<ScReconnectConfig>,
}

impl ScClientBuilder<AlwaysAck> {
    /// A builder with the default configuration and options, no hub, the
    /// unknown VMAC and an all-zero device UUID.
    pub fn new() -> (r: Self)
        ensures
            r.hub_url@.len() == 0,
            r.vmac@ == UNKNOWN_VMAC@,
            forall|i: int| 0 <= i < 16 ==> r.device_uuid@[i] == 0,
            r.heartbeat_interval_ms == DEFAULT_HEARTBEAT_INTERVAL_MS,
            r.heartbeat_timeout_ms == DEFAULT_HEARTBEAT_TIMEOUT_MS,
            r.reconnect is None,
            r.config == default_client_config(),
            r.options == default_client_options(),
    {
        ScClientBuilder {
            config: ClientConfig::default(),
            options: ClientOptions::default(),
            hub_url: String::new(),
            vmac: [0, 0, 0, 0, 0, 0],
            device_uuid: [0, 0, 0, 0, 0, 0, 0, 0, 0, 0, 0, 0, 0, 0, 0, 0],
            heartbeat_interval_ms: DEFAULT_HEARTBEAT_INTERVAL_MS,
            heartbeat_timeout_ms: DEFAULT_HEARTBEAT_TIMEOUT_MS,
            reconnect: None,
        }
    }
}

/// The message that rejects an SC identity with VMAC `vmac`.
pub open spec fn identity_message(vmac: Seq<u8>) -> Seq<char> {
    if vmac == UNKNOWN_VMAC@ {
        "SC client builder: vmac must not be the reserved unknown VMAC"@
    } else if vmac == BROADCAST_VMAC@ {
        "SC client builder: vmac must not be the reserved broadcast VMAC"@
    } else {
        "SC client builder: device_uuid is required and must not be all zero"@
    }
}

/// A device UUID of sixteen zero octets.
pub open spec fn all_zero_uuid(uuid: Seq<u8>) -> bool {
    forall|i: int| 0 <= i < uuid.len() ==> uuid[i] == 0
}

impl<P: ConfirmedCOVNotificationAckPolicy> ScClientBuilder<P> {
    /// Set the hub WebSocket URL.
    pub fn hub_url(self, url: &str) -> (r: Self)
        ensures
            r.hub_url@ == url@,
            r.config == self.config,
            r.options == self.options,
            r.vmac == self.vmac,
            r.device_uuid == self.device_uuid,
            r.heartbeat_interval_ms == self.heartbeat_interval_ms,
            r.heartbeat_timeout_ms == self.heartbeat_timeout_ms,
            r.reconnect == self.reconnect,
    {
        ScClientBuilder { hub_url: url.to_string(), ..self }
    }

    /// Set the local VMAC address.
    pub fn vmac(self, vmac: [u8; 6]) -> (r: Self)
        ensures
            r == (ScClientBuilder { vmac: vmac, ..self }),
    {
        ScClientBuilder { vmac, ..self }
    }

    /// Set the persistent BACnet/SC device UUID.
    pub fn device_uuid(self, uuid: [u8; 16]) -> (r: Self)
        ensures
            r == (ScClientBuilder { device_uuid: uuid, ..self }),
    {
        ScClientBuilder { device_uuid: uuid, ..self }
    }

    /// Set the heartbeat interval in milliseconds.
    pub fn heartbeat_interval_ms(self, ms: u64) -> (r: Self)
        ensures
            r == (ScClientBuilder { heartbeat_interval_ms: ms, ..self }),
    {
        ScClientBuilder { heartbeat_interval_ms: ms, ..self }
    }

    /// Set the heartbeat timeout in milliseconds.
    pub fn heartbeat_timeout_ms(self, ms: u64) -> (r: Self)
        ensures
            r == (ScClientBuilder { heartbeat_timeout_ms: ms, ..self }),
    {
        ScClientBuilder { heartbeat_timeout_ms: ms, ..self }
    }

    /// Set the APDU timeout in milliseconds.
    pub fn apdu_timeout_ms(self, ms: u64) -> (r: Self)
        ensures
            r == (ScClientBuilder { config: ClientConfig { apdu_timeout_ms: ms, ..self.config }, ..self }),
    {
        let mut b = self;
        b.config.apdu_timeout_ms = ms;
        b
    }

    /// Set the maximum APDU length this client accepts.
    pub fn max_apdu_length(self, len: u16) -> (r: Self)
        ensures
            r == (ScClientBuilder { config: ClientConfig { max_apdu_length: len, ..self.config }, ..self }),
    {
        let mut b = self;
        b.config.max_apdu_length = len;
        b
    }

    /// Set the number of APDU retries before a confirmed request times out.
    pub fn apdu_retries(self, retries: u8) -> (r: Self)
        ensures
            r == (ScClientBuilder { config: ClientConfig { apdu_retries: retries, ..self.config }, ..self }),
    {
        let mut b = self;
        b.config.apdu_retries = retries;
        b
    }

    /// Set the maximum number of APDU segments this client accepts.
    pub fn max_segments(self, max_segments: Option<u8>) -> (r: Self)
        ensures
            r == (ScClientBuilder { config: ClientConfig { max_segments: max_segments, ..self.config }, ..self }),
    {
        let mut b = self;
        b.config.max_segments = max_segments;
        b
    }

    /// Set whether this client accepts segmented responses.
    pub fn segmented_response_accepted(self, accepted: bool) -> (r: Self)
        ensures
            r == (ScClientBuilder { config: ClientConfig { segmented_response_accepted: accepted, ..self.config }, ..self }),
    {
        let mut b = self;
        b.config.segmented_response_accepted = accepted;
        b
    }

    /// Set the proposed segmented-transfer window size.
    pub fn proposed_window_size(self, window_size: u8) -> (r: Self)
        ensures
            r == (ScClientBuilder { config: ClientConfig { proposed_window_size: window_size, ..self.config }, ..self }),
    {
        let mut b = self;
        b.config.proposed_window_size = window_size;
        b
    }

    /// Set the COV notification channel capacity.
    pub fn cov_channel_capacity(self, capacity: usize) -> (r: Self)
        ensures
            r == (ScClientBuilder {
                options: ClientOptions { cov_channel_capacity: capacity, ..self.options },
                ..self
            }),
    {
        let mut b = self;
        b.options.cov_channel_capacity = capacity;
        b
    }

    /// Enable automatic reconnection with the given settings.
    pub fn reconnect(self, config: ScReconnectConfig) -> (r: Self)
        ensures
            r == (ScClientBuilder { reconnect: Some(config), ..self }),
    {
        ScClientBuilder { reconnect: Some(config), ..self }
    }

    /// Reject the reserved VMACs and a missing device UUID.
    pub fn validate_identity(&self) -> (r: Result<(), Error>)
        ensures
            self.vmac@ == UNKNOWN_VMAC@ ==> (r matches Err(Error::Encoding(m)) && m@
                == "SC client builder: vmac must not be the reserved unknown VMAC"@),
            self.vmac@ == BROADCAST_VMAC@ ==> (r matches Err(Error::Encoding(m)) && m@
                == "SC client builder: vmac must not be the reserved broadcast VMAC"@),
            self.vmac@ != UNKNOWN_VMAC@ && self.vmac@ != BROADCAST_VMAC@ && all_zero_uuid(
                self.device_uuid@,
            ) ==> (r matches Err(Error::Encoding(m)) && m@
                == "SC client builder: device_uuid is required and must not be all zero"@),
            r is Ok <==> (self.vmac@ != UNKNOWN_VMAC@ && self.vmac@ != BROADCAST_VMAC@
                && !all_zero_uuid(self.device_uuid@)),
    {
        let v = &self.vmac;
        let mut unknown = true;
        let mut broadcast = true;
        let mut i: usize = 0;
        while i < 6
            invariant
                i <= 6,
                unknown == forall|j: int| 0 <= j < i ==> v@[j] == 0,
                broadcast == forall|j: int| 0 <= j < i ==> v@[j] == 0xFF,
            decreases 6 - i,
        {
            unknown = unknown && v[i] == 0;
            broadcast = broadcast && v[i] == 0xFF;
            i = i + 1;
        }
        proof {
            assert(unknown == (v@ =~= UNKNOWN_VMAC@));
            assert(broadcast == (v@ =~= BROADCAST_VMAC@));
        }
        if unknown {
            return Err(
                Error::Encoding(
                    String::from_str("SC client builder: vmac must not be the reserved unknown VMAC"),
                ),
            );
        }
        if broadcast {
            return Err(
                Error::Encoding(
                    String::from_str("SC client builder: vmac must not be the reserved broadcast VMAC"),
                ),
            );
        }
        let mut zero = true;
        let mut k: usize = 0;
        while k < 16
            invariant
                k <= 16,
                zero == forall|j: int| 0 <= j < k ==> self.device_uuid@[j] == 0,
            decreases 16 - k,
        {
            zero = zero && self.device_uuid[k] == 0;
            k = k + 1;
        }
        if zero {
            return Err(
                Error::Encoding(
                    String::from_str(
                        "SC client builder: device_uuid is required and must not be all zero",
                    ),
                ),
            );
        }
        Ok(())
    }

    /// The checks made before connecting to the hub: identity, options,
    /// max-segments and reconnection settings, in that order.
    pub fn check_before_connect(&self) -> (r: Result<(), Error>)
        ensures
            !(self.vmac@ != UNKNOWN_VMAC@ && self.vmac@ != BROADCAST_VMAC@ && !all_zero_uuid(
                self.device_uuid@,
            )) ==> (r matches Err(Error::Encoding(m)) && m@ == identity_message(self.vmac@)),
            self.vmac@ != UNKNOWN_VMAC@ && self.vmac@ != BROADCAST_VMAC@ && !all_zero_uuid(
                self.device_uuid@,
            ) && !(1 <= self.options.cov_channel_capacity <= crate::config::MAX_COV_CHANNEL_CAPACITY)
                ==> (r matches Err(Error::Encoding(m)) && m@ == cov_capacity_message(
                self.options.cov_channel_capacity,
            )),
            self.vmac@ != UNKNOWN_VMAC@ && self.vmac@ != BROADCAST_VMAC@ && !all_zero_uuid(
                self.device_uuid@,
            ) && 1 <= self.options.cov_channel_capacity <= crate::config::MAX_COV_CHANNEL_CAPACITY
                && !(1 <= self.options.event_channel_capacity <= crate::config::MAX_EVENT_CHANNEL_CAPACITY)
                ==> (r matches Err(Error::Encoding(m)) && m@ == event_capacity_message(
                self.options.event_channel_capacity,
            )),
            self.vmac@ != UNKNOWN_VMAC@ && self.vmac@ != BROADCAST_VMAC@ && !all_zero_uuid(
                self.device_uuid@,
            ) && 1 <= self.options.cov_channel_capacity <= crate::config::MAX_COV_CHANNEL_CAPACITY
                && 1 <= self.options.event_channel_capacity <= crate::config::MAX_EVENT_CHANNEL_CAPACITY
                && (self.config.max_segments matches Some(n) && n < 2) ==> (r matches Err(
                Error::Encoding(m),
            ) && m@ == max_segments_message(self.config.max_segments.unwrap())),
            self.vmac@ != UNKNOWN_VMAC@ && self.vmac@ != BROADCAST_VMAC@ && !all_zero_uuid(
                self.device_uuid@,
            ) && 1 <= self.options.cov_channel_capacity <= crate::config::MAX_COV_CHANNEL_CAPACITY
                && 1 <= self.options.event_channel_capacity <= crate::config::MAX_EVENT_CHANNEL_CAPACITY
                && !(self.config.max_segments matches Some(n) && n < 2) && (self.reconnect matches Some(
                c,
            ) && reconnect_message(c) is Some) ==> (r matches Err(Error::OutOfRange(m)) && m@
                == reconnect_message(self.reconnect.unwrap()).unwrap()),
            r is Ok <==> (self.vmac@ != UNKNOWN_VMAC@ && self.vmac@ != BROADCAST_VMAC@
                && !all_zero_uuid(self.device_uuid@) && 1 <= self.options.cov_channel_capacity
                <= crate::config::MAX_COV_CHANNEL_CAPACITY && 1 <= self.options.event_channel_capacity
                <= crate::config::MAX_EVENT_CHANNEL_CAPACITY && !(self.config.max_segments matches Some(n)
                && n < 2) && !(self.reconnect matches Some(c) && reconnect_message(c) is Some)),
    {
        self.validate_identity()?;
        self.options.validate()?;
        validate_max_segments(self.config.max_segments)?;
        match &self.reconnect {
            Some(c) => c.validate(),
            None => Ok(()),
        }
    }
}

} // verus!
