//! COV notifications as the client receives them, the answer to a confirmed
//! one, and the renewal schedule of a managed finite COV subscription.

use vstd::prelude::*;
use vstd::string::*;
use vstd::slice::slice_to_vec;

use crate::config::MAX_COV_CHANNEL_CAPACITY;
use crate::dispatch::{encode_reject, encode_simple_ack, reply_address};
use crate::error::{error_text, Error};
use crate::model::{NpduAddress, ObjectIdentifier};
use crate::text::{decimal_chars, push_decimal};

verus! {

/// Default renewal margin of a managed subscription, in milliseconds.
pub const DEFAULT_COV_RENEWAL_MARGIN_MS: u64 = 30_000;

/// Default capacity of a managed subscription's event channel.
pub const DEFAULT_COV_RENEWAL_EVENT_CAPACITY: usize = 16;

/// Delivery mode used for a received COV notification.
#[derive(Clone, Copy, Debug, PartialEq, Eq, Structural)]
pub enum COVNotificationDelivery {
    /// Notification arrived as a ConfirmedCOVNotification request.
    Confirmed,
    /// Notification arrived as an UnconfirmedCOVNotification request.
    Unconfirmed,
}

/// Application response policy for a decoded ConfirmedCOVNotification.
#[derive(Clone, Copy, Debug, PartialEq, Eq, Structural)]
pub enum ConfirmedCOVNotificationResponse {
    /// Send the standard SimpleAck response.
    Ack,
    /// Send a Reject PDU with the supplied reason.
    Reject(u8),
    /// Do not respond; the remote sender will time out or retry.
    NoResponse,
}

/// The parameters of a COV notification.
#[derive(Clone, Debug)]
pub struct COVNotificationRequest {
    pub subscriber_process_identifier: u32,
    pub initiating_device_identifier: ObjectIdentifier,
    pub monitored_object_identifier: ObjectIdentifier,
    /// Seconds of subscription lifetime left.
    pub time_remaining: u32,
    /// The encoded list of values.
    pub list_of_values: Vec<u8>,
}

/// A decoded inbound COV notification plus transport-observed metadata.
#[derive(Clone, Debug)]
pub struct ReceivedCOVNotification {
    /// Decoded COV notification service payload.
    pub notification: COVNotificationRequest,
    /// Immediate transport source MAC that delivered the NPDU.
    pub source_mac: Vec<u8>,
    /// NPDU source network, when supplied by a routed sender.
    pub source_network: Option<u16>,
    /// NPDU source MAC/address, when supplied by a routed sender.
    pub source_address: Option<Vec<u8>>,
    /// Whether the notification arrived through the confirmed or unconfirmed service.
    pub delivery: COVNotificationDelivery,
}

/// The source address a received notification records: the SNET/SADR of its
/// NPDU when it names a remote station.
pub open spec fn recorded_source(
    network: Option<u16>,
    address: Option<Vec<u8>>,
) -> Option<(u16, Seq<u8>)> {
    match (network, address) {
        (Some(n), Some(a)) => Some((n, a@)),
        _ => None,
    }
}

impl ReceivedCOVNotification {
    /// Record a decoded notification with the addresses it arrived from.
    pub fn new(
        notification: COVNotificationRequest,
        source_mac: &[u8],
        source_network: &Option<NpduAddress>,
        delivery: COVNotificationDelivery,
    ) -> (r: Self)
        ensures
            r.notification == notification,
            r.source_mac@ == source_mac@,
            r.source_network is Some == r.source_address is Some,
            recorded_source(r.source_network, r.source_address) == reply_address(*source_network),
            r.delivery == delivery,
    {
        let (network, address) = match source_network {
            Some(a) => if a.mac_address.len() > 0 {
                (Some(a.network), Some(a.mac_address.clone()))
            } else {
                (None, None)
            },
            None => (None, None),
        };
        ReceivedCOVNotification {
            notification,
            source_mac: slice_to_vec(source_mac),
            source_network: network,
            source_address: address,
            delivery,
        }
    }
}

/// How the client answers a decoded ConfirmedCOVNotification. Applications
/// implement this to acknowledge, reject or stay silent.
pub trait ConfirmedCOVNotificationAckPolicy {
    /// The answer to `notification`.
    fn respond(&self, notification: &ReceivedCOVNotification) -> ConfirmedCOVNotificationResponse;
}

/// The default policy: acknowledge every decoded notification.
#[derive(Clone, Copy, Debug)]
pub struct AlwaysAck;

impl ConfirmedCOVNotificationAckPolicy for AlwaysAck {
    fn respond(&self, notification: &ReceivedCOVNotification) -> (r: ConfirmedCOVNotificationResponse)
        ensures
            r == ConfirmedCOVNotificationResponse::Ack,
    {
        ConfirmedCOVNotificationResponse::Ack
    }
}

/// The default confirmed COV notification policy, which acknowledges.
pub fn default_confirmed_cov_notification_ack_policy() -> (r: AlwaysAck)
    ensures
        r == AlwaysAck,
{
    AlwaysAck
}

/// The APDU that answers a ConfirmedCOVNotification under `response`.
pub fn cov_notification_reply(
    response: ConfirmedCOVNotificationResponse,
    invoke_id: u8,
    service_choice: u8,
) -> (r: Option<Vec<u8>>)
    ensures
        match response {
            ConfirmedCOVNotificationResponse::Ack => r matches Some(v) && v@ == seq![
                0x20u8,
                invoke_id,
                service_choice,
            ],
            ConfirmedCOVNotificationResponse::Reject(reason) => r matches Some(v) && v@ == seq![
                0x60u8,
                invoke_id,
                reason,
            ],
            ConfirmedCOVNotificationResponse::NoResponse => r is None,
        },
{
    match response {
        ConfirmedCOVNotificationResponse::Ack => Some(encode_simple_ack(invoke_id, service_choice)),
        ConfirmedCOVNotificationResponse::Reject(reason) => Some(encode_reject(invoke_id, reason)),
        ConfirmedCOVNotificationResponse::NoResponse => None,
    }
}

/// The APDU octets that answer a ConfirmedCOVNotification under `response`,
/// or `None` when the policy stays silent.
pub open spec fn cov_reply(response: ConfirmedCOVNotificationResponse, invoke_id: u8, service_choice: u8) -> Option<
    Seq<u8>,
> {
    match response {
        ConfirmedCOVNotificationResponse::Ack => Some(seq![0x20u8, invoke_id, service_choice]),
        ConfirmedCOVNotificationResponse::Reject(reason) => Some(seq![0x60u8, invoke_id, reason]),
        ConfirmedCOVNotificationResponse::NoResponse => None,
    }
}

/// What the client does with one unsegmented ConfirmedCOVNotification: the
/// notification it publishes to COV subscribers, the answer its policy gave,
/// and the APDU it sends back, in that order.
pub struct ConfirmedCOVNotificationOutcome {
    /// The notification published to subscribers; none when it did not decode.
    pub published: Option<ReceivedCOVNotification>,
    /// The policy's answer; none when the notification did not decode, in
    /// which case the policy is not asked.
    pub response: Option<ConfirmedCOVNotificationResponse>,
    /// The APDU sent back, if any.
    pub reply: Option<Vec<u8>>,
}

/// Handle a ConfirmedCOVNotification whose service request decoded to
/// `decoded` (or failed with the decoder's reject reason): a decoded one is
/// recorded with its source addresses, the policy is asked once for its
/// answer, the record is published, and the answer's reply is sent; one that
/// did not decode is rejected with the decoder's reason, the policy is not
/// asked and nothing is published.
pub fn handle_confirmed_cov_notification<P: ConfirmedCOVNotificationAckPolicy>(
    policy: &P,
    decoded: Result<COVNotificationRequest, u8>,
    source_mac: &[u8],
    source_network: &Option<NpduAddress>,
    invoke_id: u8,
    service_choice: u8,
) -> (r: ConfirmedCOVNotificationOutcome)
    ensures
        match decoded {
            Ok(n) => {
                &&& r.published matches Some(rcv) && {
                    &&& rcv.notification == n
                    &&& rcv.source_mac@ == source_mac@
                    &&& recorded_source(rcv.source_network, rcv.source_address) == reply_address(
                        *source_network,
                    )
                    &&& rcv.delivery == COVNotificationDelivery::Confirmed
                    &&& r.response matches Some(resp) && call_ensures(
                        P::respond,
                        (policy, &rcv),
                        resp,
                    )
                }
                &&& r.response matches Some(resp) && match r.reply {
                    Some(v) => cov_reply(resp, invoke_id, service_choice) == Some(v@),
                    None => cov_reply(resp, invoke_id, service_choice) is None,
                }
            },
            Err(reason) => {
                &&& r.published is None
                &&& r.response is None
                &&& r.reply matches Some(v) && v@ == seq![0x60u8, invoke_id, reason]
            },
        },
{
    match decoded {
        Ok(n) => {
            let received = ReceivedCOVNotification::new(
                n,
                source_mac,
                source_network,
                COVNotificationDelivery::Confirmed,
            );
            let response = policy.respond(&received);
            let reply = cov_notification_reply(response, invoke_id, service_choice);
            ConfirmedCOVNotificationOutcome {
                published: Some(received),
                response: Some(response),
                reply,
            }
        },
        Err(reason) => ConfirmedCOVNotificationOutcome {
            published: None,
            response: None,
            reply: Some(encode_reject(invoke_id, reason)),
        },
    }
}

/// A SubscribeCOV request.
pub struct SubscribeCOVRequest {
    pub subscriber_process_identifier: u32,
    pub monitored_object_identifier: ObjectIdentifier,
    /// `None` together with no lifetime cancels the subscription.
    pub issue_confirmed_notifications: Option<bool>,
    /// Seconds; `None` asks for an indefinite subscription.
    pub lifetime: Option<u32>,
}

/// The SubscribeCOV request for these parameters.
pub fn subscribe_cov_request(
    subscriber_process_identifier: u32,
    monitored_object_identifier: ObjectIdentifier,
    confirmed: Option<bool>,
    lifetime: Option<u32>,
) -> (r: SubscribeCOVRequest)
    ensures
        r == (SubscribeCOVRequest {
            subscriber_process_identifier,
            monitored_object_identifier,
            issue_confirmed_notifications: confirmed,
            lifetime,
        }),
{
    SubscribeCOVRequest {
        subscriber_process_identifier,
        monitored_object_identifier,
        issue_confirmed_notifications: confirmed,
        lifetime,
    }
}

/// Options for a managed finite COV subscription.
#[derive(Clone, Copy, Debug)]
pub struct ManagedCOVSubscriptionOptions {
    /// How long before the known remaining lifetime to renew, in milliseconds.
    pub renewal_margin: u64,
    /// Capacity of the renewal event channel, in `1..=MAX_COV_CHANNEL_CAPACITY`.
    pub event_channel_capacity: usize,
}

impl Default for ManagedCOVSubscriptionOptions {
    fn default() -> (r: Self)
        ensures
            r.renewal_margin == DEFAULT_COV_RENEWAL_MARGIN_MS,
            r.event_channel_capacity == DEFAULT_COV_RENEWAL_EVENT_CAPACITY,
    {
        ManagedCOVSubscriptionOptions {
            renewal_margin: DEFAULT_COV_RENEWAL_MARGIN_MS,
            event_channel_capacity: DEFAULT_COV_RENEWAL_EVENT_CAPACITY,
        }
    }
}

/// `secs` seconds in milliseconds.
pub open spec fn secs_to_ms(secs: u32) -> int {
    secs * 1000
}

/// Message of the error for an event channel capacity out of range.
pub open spec fn event_capacity_message(capacity: usize) -> Seq<char> {
    "invalid managed COV subscription event channel capacity "@ + decimal_chars(capacity as nat)
        + "; expected 1..=65536"@
}

/// Message of the error for a margin not shorter than the lifetime.
pub open spec fn margin_message() -> Seq<char> {
    "managed COV subscription renewal margin must be shorter than lifetime"@
}

impl ManagedCOVSubscriptionOptions {
    /// Set the renewal margin, in milliseconds.
    pub fn with_renewal_margin(self, margin: u64) -> (r: Self)
        ensures
            r.renewal_margin == margin,
            r.event_channel_capacity == self.event_channel_capacity,
    {
        ManagedCOVSubscriptionOptions { renewal_margin: margin, ..self }
    }

    /// Set the renewal event channel capacity.
    pub fn with_event_channel_capacity(self, capacity: usize) -> (r: Self)
        ensures
            r.renewal_margin == self.renewal_margin,
            r.event_channel_capacity == capacity,
    {
        ManagedCOVSubscriptionOptions { event_channel_capacity: capacity, ..self }
    }

    /// Check the options for a subscription of `lifetime` seconds.
    pub fn validate(&self, lifetime: u32) -> (r: Result<(), Error>)
        ensures
            !(1 <= self.event_channel_capacity <= MAX_COV_CHANNEL_CAPACITY) ==> (r matches Err(
                Error::Encoding(m),
            ) && m@ == event_capacity_message(self.event_channel_capacity)),
            1 <= self.event_channel_capacity <= MAX_COV_CHANNEL_CAPACITY ==> if self.renewal_margin
                >= secs_to_ms(lifetime) {
                r matches Err(Error::Encoding(m)) && m@ == margin_message()
            } else {
                r is Ok
            },
    {
        if self.event_channel_capacity < 1 || self.event_channel_capacity > MAX_COV_CHANNEL_CAPACITY {
            let mut m = String::from_str("invalid managed COV subscription event channel capacity ");
            push_decimal(&mut m, self.event_channel_capacity as u64);
            m.append("; expected 1..=65536");
            return Err(Error::Encoding(m));
        }
        if self.renewal_margin >= lifetime as u64 * 1000 {
            return Err(
                Error::Encoding(
                    String::from_str(
                        "managed COV subscription renewal margin must be shorter than lifetime",
                    ),
                ),
            );
        }
        Ok(())
    }

    /// Milliseconds from a lifetime observation of `time_remaining` seconds
    /// until renewal: the lifetime less the margin, never negative.
    pub fn renewal_delay(&self, time_remaining: u32) -> (r: u64)
        ensures
            r == if secs_to_ms(time_remaining) >= self.renewal_margin {
                secs_to_ms(time_remaining) - self.renewal_margin
            } else {
                0
            },
    {
        (time_remaining as u64 * 1000).saturating_sub(self.renewal_margin)
    }
}

/// Message of the error for a managed subscription without a finite lifetime.
pub open spec fn zero_lifetime_message() -> Seq<char> {
    "managed COV subscriptions require a finite non-zero lifetime"@
}

/// Check the parameters of a managed subscription before the first
/// SubscribeCOV is sent.
pub fn check_managed_subscription(lifetime: u32, options: &ManagedCOVSubscriptionOptions) -> (r: Result<
    (),
    Error,
>)
    ensures
        lifetime == 0 ==> (r matches Err(Error::Encoding(m)) && m@ == zero_lifetime_message()),
        lifetime != 0 && !(1 <= options.event_channel_capacity <= MAX_COV_CHANNEL_CAPACITY) ==> (r matches Err(
            Error::Encoding(m),
        ) && m@ == event_capacity_message(options.event_channel_capacity)),
        lifetime != 0 && 1 <= options.event_channel_capacity <= MAX_COV_CHANNEL_CAPACITY ==> if options.renewal_margin
            >= secs_to_ms(lifetime) {
            r matches Err(Error::Encoding(m)) && m@ == margin_message()
        } else {
            r is Ok
        },
        r is Ok <==> options.accepts(lifetime),
{
    if lifetime == 0 {
        return Err(
            Error::Encoding(
                String::from_str("managed COV subscriptions require a finite non-zero lifetime"),
            ),
        );
    }
    options.validate(lifetime)
}

/// Events emitted by a managed finite COV subscription.
#[derive(Clone, Debug, PartialEq, Eq)]
pub enum ManagedCOVSubscriptionEvent {
    /// A matching COV notification supplied a new lifetime observation.
    NotificationObserved {
        /// The `time_remaining` field from the inbound notification.
        time_remaining: u32,
        /// Milliseconds until the next renewal after applying the margin.
        renew_after: u64,
    },
    /// The observed lifetime is inside the configured renewal margin.
    ImpendingExpiry {
        /// The `time_remaining` field from the inbound notification.
        time_remaining: u32,
    },
    /// The subscription was renewed.
    Renewed {
        /// Lifetime requested on the renewed SubscribeCOV request.
        requested_lifetime: u32,
        /// Milliseconds until the next scheduled renewal.
        renew_after: u64,
    },
    /// A renewal SubscribeCOV request failed and renewal stopped.
    RenewalFailed {
        /// Text of the error.
        error: String,
    },
}

/// Whether a received notification belongs to a managed subscription: same
/// subscriber process and monitored object, delivered directly (not through a
/// router) by the subscribed device.
pub open spec fn belongs_to(
    received: ReceivedCOVNotification,
    destination_mac: Seq<u8>,
    subscriber_process_identifier: u32,
    monitored_object_identifier: ObjectIdentifier,
) -> bool {
    &&& received.notification.subscriber_process_identifier == subscriber_process_identifier
    &&& received.notification.monitored_object_identifier == monitored_object_identifier
    &&& received.source_network is None
    &&& received.source_address is None
    &&& received.source_mac@ == destination_mac
}

/// Whether `received` belongs to the managed subscription.
pub fn matches_managed_cov_notification(
    received: &ReceivedCOVNotification,
    destination_mac: &[u8],
    subscriber_process_identifier: u32,
    monitored_object_identifier: ObjectIdentifier,
) -> (r: bool)
    ensures
        r == belongs_to(
            *received,
            destination_mac@,
            subscriber_process_identifier,
            monitored_object_identifier,
        ),
        r ==> received.notification.monitored_object_identifier.object_type
            == monitored_object_identifier.object_type,
        r ==> received.notification.monitored_object_identifier.instance
            == monitored_object_identifier.instance,
        r ==> received.notification.subscriber_process_identifier == subscriber_process_identifier,
{
    received.notification.subscriber_process_identifier == subscriber_process_identifier
        && received.notification.monitored_object_identifier == monitored_object_identifier
        && received.source_network.is_none() && received.source_address.is_none()
        && crate::routed_path::bytes_equal(received.source_mac.as_slice(), destination_mac)
}

/// A notification feeds a managed subscription only when it is about the
/// subscribed object, same object type and same instance, for the subscribed
/// process, delivered directly by the subscribed device; a notification about
/// any other object (another type with the same instance, or another
/// instance of the same type) never does, whatever else it carries. Every
/// notification about the subscribed object and process that the device
/// delivers directly does belong to it.
pub proof fn lemma_notification_belongs_only_to_its_object(
    received: ReceivedCOVNotification,
    destination_mac: Seq<u8>,
    subscriber_process_identifier: u32,
    monitored_object_identifier: ObjectIdentifier,
)
    ensures
        belongs_to(received, destination_mac, subscriber_process_identifier, monitored_object_identifier)
            ==> {
            &&& received.notification.monitored_object_identifier.object_type
                == monitored_object_identifier.object_type
            &&& received.notification.monitored_object_identifier.instance
                == monitored_object_identifier.instance
            &&& received.notification.subscriber_process_identifier == subscriber_process_identifier
            &&& received.source_network is None
            &&& received.source_address is None
            &&& received.source_mac@ == destination_mac
        },
        received.notification.monitored_object_identifier.object_type
            != monitored_object_identifier.object_type ==> !belongs_to(
            received,
            destination_mac,
            subscriber_process_identifier,
            monitored_object_identifier,
        ),
        received.notification.monitored_object_identifier.instance
            != monitored_object_identifier.instance ==> !belongs_to(
            received,
            destination_mac,
            subscriber_process_identifier,
            monitored_object_identifier,
        ),
        received.notification.monitored_object_identifier.object_type
            == monitored_object_identifier.object_type
            && received.notification.monitored_object_identifier.instance
            == monitored_object_identifier.instance
            && received.notification.subscriber_process_identifier == subscriber_process_identifier
            && received.source_network is None && received.source_address is None
            && received.source_mac@ == destination_mac ==> belongs_to(
            received,
            destination_mac,
            subscriber_process_identifier,
            monitored_object_identifier,
        ),
{
}

/// `now + delay`, saturating.
pub open spec fn after(now: u64, delay: u64) -> u64 {
    if now + delay <= u64::MAX {
        (now + delay) as u64
    } else {
        u64::MAX
    }
}

/// The renewal schedule of a managed subscription, on a millisecond clock.
pub struct RenewalSchedule {
    /// Lifetime, in seconds, requested on every SubscribeCOV.
    pub lifetime: u32,
    pub options: ManagedCOVSubscriptionOptions,
    /// When the next renewal is due.
    pub renew_at: u64,
}

impl RenewalSchedule {
    /// The schedule after the initial SubscribeCOV succeeded at `now`.
    pub fn start(lifetime: u32, options: ManagedCOVSubscriptionOptions, now: u64) -> (r: Self)
        ensures
            r.lifetime == lifetime,
            r.options == options,
            r.renew_at == after(now, options.renewal_delay_spec(lifetime)),
    {
        let delay = options.renewal_delay(lifetime);
        RenewalSchedule { lifetime, options, renew_at: now.saturating_add(delay) }
    }

    /// A renewal succeeded at `now`: schedule the next one.
    pub fn on_renewed(&mut self, now: u64) -> (r: ManagedCOVSubscriptionEvent)
        ensures
            final(self).lifetime == old(self).lifetime,
            final(self).options == old(self).options,
            final(self).renew_at == after(now, old(self).options.renewal_delay_spec(old(self).lifetime)),
            r == (ManagedCOVSubscriptionEvent::Renewed {
                requested_lifetime: old(self).lifetime,
                renew_after: old(self).options.renewal_delay_spec(old(self).lifetime),
            }),
    {
        let renew_after = self.options.renewal_delay(self.lifetime);
        self.renew_at = now.saturating_add(renew_after);
        ManagedCOVSubscriptionEvent::Renewed { requested_lifetime: self.lifetime, renew_after }
    }

    /// A renewal failed with `error`: renewal stops with this event.
    pub fn on_renewal_failed(&self, error: &Error) -> (r: ManagedCOVSubscriptionEvent)
        ensures
            r matches ManagedCOVSubscriptionEvent::RenewalFailed { error: e } && e@ == error_text(*error),
    {
        ManagedCOVSubscriptionEvent::RenewalFailed { error: error.message() }
    }

    /// A matching notification reporting `time_remaining` seconds arrived at
    /// `now`: report it, and move renewal earlier if it is due sooner (at once
    /// when the lifetime left is inside the margin).
    pub fn on_notification(&mut self, time_remaining: u32, now: u64) -> (r: (
        ManagedCOVSubscriptionEvent,
        Option<ManagedCOVSubscriptionEvent>,
    ))
        ensures
            final(self).lifetime == old(self).lifetime,
            final(self).options == old(self).options,
            ({
                let d = old(self).options.renewal_delay_spec(time_remaining);
                &&& r.0 == (ManagedCOVSubscriptionEvent::NotificationObserved {
                    time_remaining,
                    renew_after: d,
                })
                &&& if d == 0 {
                    &&& r.1 == Some(ManagedCOVSubscriptionEvent::ImpendingExpiry { time_remaining })
                    &&& final(self).renew_at == now
                } else {
                    &&& r.1 is None
                    &&& final(self).renew_at == if after(now, d) < old(self).renew_at {
                        after(now, d)
                    } else {
                        old(self).renew_at
                    }
                }
            }),
            old(self).renew_at >= now ==> final(self).renew_at <= old(self).renew_at,
    {
        let renew_after = self.options.renewal_delay(time_remaining);
        let observed = ManagedCOVSubscriptionEvent::NotificationObserved { time_remaining, renew_after };
        let observed_renew_at = now.saturating_add(renew_after);
        if renew_after == 0 {
            self.renew_at = observed_renew_at;
            (observed, Some(ManagedCOVSubscriptionEvent::ImpendingExpiry { time_remaining }))
        } else {
            if observed_renew_at < self.renew_at {
                self.renew_at = observed_renew_at;
            }
            (observed, None)
        }
    }
}

impl ManagedCOVSubscriptionOptions {
    /// Options a managed subscription of `lifetime` seconds starts with: a
    /// finite lifetime, a capacity in range and a margin shorter than the
    /// lifetime.
    pub open spec fn accepts(&self, lifetime: u32) -> bool {
        &&& lifetime != 0
        &&& 1 <= self.event_channel_capacity <= MAX_COV_CHANNEL_CAPACITY
        &&& self.renewal_margin < secs_to_ms(lifetime)
    }

    /// The value [`Self::renewal_delay`] returns.
    pub open spec fn renewal_delay_spec(&self, time_remaining: u32) -> u64 {
        if secs_to_ms(time_remaining) >= self.renewal_margin {
            (secs_to_ms(time_remaining) - self.renewal_margin) as u64
        } else {
            0
        }
    }
}

/// With options that validate, the first renewal is scheduled exactly the
/// margin before the requested lifetime runs out, and strictly before it
/// when the margin is positive.
pub proof fn lemma_renewal_precedes_expiry(options: ManagedCOVSubscriptionOptions, lifetime: u32)
    requires
        options.accepts(lifetime),
    ensures
        options.renewal_delay_spec(lifetime) + options.renewal_margin == secs_to_ms(lifetime),
        options.renewal_margin > 0 ==> options.renewal_delay_spec(lifetime) < secs_to_ms(lifetime),
{
}

/// A notification never postpones a renewal that is not yet overdue, and
/// one reporting a lifetime inside the margin makes renewal due at once.
pub proof fn lemma_notification_never_postpones(
    options: ManagedCOVSubscriptionOptions,
    renew_at: u64,
    time_remaining: u32,
    now: u64,
)
    requires
        renew_at >= now,
    ensures
        ({
            let d = options.renewal_delay_spec(time_remaining);
            let next = if d == 0 {
                now
            } else if after(now, d) < renew_at {
                after(now, d)
            } else {
                renew_at
            };
            &&& next <= renew_at
            &&& secs_to_ms(time_remaining) <= options.renewal_margin ==> next == now
        }),
{
}

} // verus!
