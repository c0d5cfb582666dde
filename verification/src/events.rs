//! Discovered devices, the events the discovery table emits, and where a
//! request to a discovered device is sent.

use vstd::prelude::*;
use vstd::string::*;
use vstd::slice::slice_to_vec;

use crate::dispatch::reply_address;
use crate::error::Error;
use crate::model::{NpduAddress, ObjectIdentifier, Segmentation, MAX_INSTANCE, OBJECT_TYPE_DEVICE};
use crate::text::{decimal_chars, push_decimal};

verus! {

/// Max APDU Length Accepted recorded for a manually added device.
pub const MANUAL_DEVICE_MAX_APDU_LENGTH: u32 = 1476;

/// Type of change observed in the device discovery table.
#[derive(Clone, Copy, Debug, PartialEq, Eq, Structural)]
pub enum DeviceEventKind {
    /// A new device instance was inserted into the discovery table.
    Discovered,
    /// An existing device instance was refreshed by a later I-Am.
    Updated,
    /// A previously discovered device was purged as stale.
    Lost,
}

/// Delivery mode used for a received event notification.
#[derive(Clone, Copy, Debug, PartialEq, Eq, Structural)]
pub enum EventNotificationDelivery {
    /// Notification arrived as a ConfirmedEventNotification request.
    Confirmed,
    /// Notification arrived as an UnconfirmedEventNotification request.
    Unconfirmed,
}

/// A device known to the discovery table.
#[derive(Debug)]
pub struct DiscoveredDevice {
    pub object_identifier: ObjectIdentifier,
    /// MAC the device (or the router in front of it) is reached at.
    pub mac_address: Vec<u8>,
    pub max_apdu_length: u32,
    pub segmentation_supported: Segmentation,
    pub max_segments_accepted: Option<u32>,
    pub vendor_id: u16,
    /// When the device was last heard from, in milliseconds.
    pub last_seen_ms: u64,
    /// SNET of a device behind a router.
    pub source_network: Option<u16>,
    /// SADR of a device behind a router.
    pub source_address: Option<Vec<u8>>,
}

/// Notification emitted when the client observes a device discovery change.
#[derive(Debug)]
pub struct DeviceEvent {
    /// The kind of discovery-table change.
    pub kind: DeviceEventKind,
    /// Snapshot of the device entry after discovery/update or before removal.
    pub device: DiscoveredDevice,
}

/// What inserting a device did to the table.
#[derive(Debug)]
pub enum DeviceUpsertResult {
    Inserted,
    Updated,
    /// The table kept its existing entry.
    Dropped,
}

/// The event a table insertion produces, if any.
pub fn device_event_kind(result: DeviceUpsertResult) -> (r: Option<DeviceEventKind>)
    ensures
        r == match result {
            DeviceUpsertResult::Inserted => Some(DeviceEventKind::Discovered),
            DeviceUpsertResult::Updated => Some(DeviceEventKind::Updated),
            DeviceUpsertResult::Dropped => None::<DeviceEventKind>,
        },
{
    match result {
        DeviceUpsertResult::Inserted => Some(DeviceEventKind::Discovered),
        DeviceUpsertResult::Updated => Some(DeviceEventKind::Updated),
        DeviceUpsertResult::Dropped => None,
    }
}

/// Where requests to `device` go: its MAC, and the DNET/DADR when it sits
/// behind a router (both halves recorded).
pub open spec fn device_route(device: DiscoveredDevice) -> (Seq<u8>, Option<(u16, Seq<u8>)>) {
    (
        device.mac_address@,
        match (device.source_network, device.source_address) {
            (Some(n), Some(a)) => Some((n, a@)),
            _ => None,
        },
    )
}

/// Message of the error for a device missing from the table.
pub open spec fn unknown_device_message(instance: u32) -> Seq<char> {
    "device "@ + decimal_chars(instance as nat) + " not in device table"@
}

/// Resolve device `instance`, found in the table as `found`, to its MAC and
/// optional routing.
pub fn resolve_device(found: Option<&DiscoveredDevice>, instance: u32) -> (r: Result<
    (Vec<u8>, Option<(u16, Vec<u8>)>),
    Error,
>)
    ensures
        match found {
            Some(d) => r matches Ok(route) && (route.0@, match route.1 {
                Some((n, a)) => Some((n, a@)),
                None => None,
            }) == device_route(*d),
            None => r matches Err(Error::Encoding(m)) && m@ == unknown_device_message(instance),
        },
{
    match found {
        Some(d) => {
            let routing = match (&d.source_network, &d.source_address) {
                (Some(n), Some(a)) => Some((*n, a.clone())),
                _ => None,
            };
            Ok((d.mac_address.clone(), routing))
        },
        None => {
            let mut m = String::from_str("device ");
            push_decimal(&mut m, instance as u64);
            m.append(" not in device table");
            Err(Error::Encoding(m))
        },
    }
}

/// The entry for a device added by hand at `mac`: local, with placeholder
/// capabilities (1476 octets, no segmentation, vendor 0).
pub fn manual_device(instance: u32, mac: &[u8], now_ms: u64) -> (r: Result<DiscoveredDevice, Error>)
    ensures
        instance <= MAX_INSTANCE ==> (r matches Ok(d) && d.object_identifier == (ObjectIdentifier {
            object_type: OBJECT_TYPE_DEVICE,
            instance,
        }) && d.mac_address@ == mac@ && d.max_apdu_length == MANUAL_DEVICE_MAX_APDU_LENGTH
            && d.segmentation_supported == Segmentation::NoSegmentation && d.max_segments_accepted
            is None && d.vendor_id == 0 && d.last_seen_ms == now_ms && d.source_network is None
            && d.source_address is None),
        instance > MAX_INSTANCE ==> (r matches Err(Error::Encoding(m)) && m@ == "object identifier out of range"@),
{
    let oid = ObjectIdentifier::new(OBJECT_TYPE_DEVICE, instance)?;
    Ok(
        DiscoveredDevice {
            object_identifier: oid,
            mac_address: slice_to_vec(mac),
            max_apdu_length: MANUAL_DEVICE_MAX_APDU_LENGTH,
            segmentation_supported: Segmentation::NoSegmentation,
            max_segments_accepted: None,
            vendor_id: 0,
            last_seen_ms: now_ms,
            source_network: None,
            source_address: None,
        },
    )
}

/// A routed peer registered by hand.
pub struct RoutedDeviceConfig {
    pub instance: u32,
    /// The immediate transport next hop.
    pub router_mac: Vec<u8>,
    pub remote_network: u16,
    pub remote_mac: Vec<u8>,
    pub max_apdu_length: u32,
    pub segmentation_supported: Segmentation,
    pub max_segments_accepted: Option<u32>,
}

/// The entry for a routed peer registered by hand; an empty router or
/// remote MAC cannot identify the path or the peer.
pub fn routed_device(config: &RoutedDeviceConfig, now_ms: u64) -> (r: Result<DiscoveredDevice, Error>)
    ensures
        config.router_mac@.len() == 0 ==> (r matches Err(Error::Encoding(m)) && m@
            == "router_mac must not be empty: it is the immediate transport next hop"@),
        config.router_mac@.len() > 0 && config.remote_mac@.len() == 0 ==> (r matches Err(
            Error::Encoding(m),
        ) && m@ == "remote_mac must not be empty: it is half of the routed peer's identity"@),
        config.router_mac@.len() > 0 && config.remote_mac@.len() > 0 && config.instance
            > MAX_INSTANCE ==> (r matches Err(Error::Encoding(m)) && m@ == "object identifier out of range"@),
        config.router_mac@.len() > 0 && config.remote_mac@.len() > 0 && config.instance
            <= MAX_INSTANCE ==> (r matches Ok(d) && d.object_identifier == (ObjectIdentifier {
            object_type: OBJECT_TYPE_DEVICE,
            instance: config.instance,
        }) && d.mac_address@ == config.router_mac@ && d.max_apdu_length == config.max_apdu_length
            && d.segmentation_supported == config.segmentation_supported && d.max_segments_accepted
            == config.max_segments_accepted && d.vendor_id == 0 && d.last_seen_ms == now_ms
            && d.source_network == Some(config.remote_network) && (d.source_address matches Some(a)
            && a@ == config.remote_mac@)),
{
    if config.router_mac.len() == 0 {
        return Err(
            Error::Encoding(
                String::from_str("router_mac must not be empty: it is the immediate transport next hop"),
            ),
        );
    }
    if config.remote_mac.len() == 0 {
        return Err(
            Error::Encoding(
                String::from_str("remote_mac must not be empty: it is half of the routed peer's identity"),
            ),
        );
    }
    let oid = ObjectIdentifier::new(OBJECT_TYPE_DEVICE, config.instance)?;
    Ok(
        DiscoveredDevice {
            object_identifier: oid,
            mac_address: config.router_mac.clone(),
            max_apdu_length: config.max_apdu_length,
            segmentation_supported: config.segmentation_supported,
            max_segments_accepted: config.max_segments_accepted,
            vendor_id: 0,
            last_seen_ms: now_ms,
            source_network: Some(config.remote_network),
            source_address: Some(config.remote_mac.clone()),
        },
    )
}

/// The entry an I-Am produces: the device as heard from `source_mac`, with
/// its SNET/SADR when it names a remote station.
pub fn i_am_device(
    object_identifier: ObjectIdentifier,
    max_apdu_length: u32,
    segmentation_supported: Segmentation,
    vendor_id: u16,
    source_mac: &[u8],
    source_network: &Option<NpduAddress>,
    now_ms: u64,
) -> (r: DiscoveredDevice)
    ensures
        r.object_identifier == object_identifier,
        r.mac_address@ == source_mac@,
        r.max_apdu_length == max_apdu_length,
        r.segmentation_supported == segmentation_supported,
        r.max_segments_accepted is None,
        r.vendor_id == vendor_id,
        r.last_seen_ms == now_ms,
        r.source_network is Some == r.source_address is Some,
        match (r.source_network, r.source_address) {
            (Some(n), Some(a)) => reply_address(*source_network) == Some((n, a@)),
            _ => reply_address(*source_network) is None,
        },
{
    let (network, address) = match source_network {
        Some(a) => if a.mac_address.len() > 0 {
            (Some(a.network), Some(a.mac_address.clone()))
        } else {
            (None, None)
        },
        None => (None, None),
    };
    DiscoveredDevice {
        object_identifier,
        mac_address: slice_to_vec(source_mac),
        max_apdu_length,
        segmentation_supported,
        max_segments_accepted: None,
        vendor_id,
        last_seen_ms: now_ms,
        source_network: network,
        source_address: address,
    }
}

} // verus!
