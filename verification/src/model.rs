//! Plain values the client reads from BACnet protocol data.

use vstd::prelude::*;

use crate::error::Error;

verus! {

/// Largest object instance number (22 bits).
pub const MAX_INSTANCE: u32 = 0x3F_FFFF;

/// Largest object type number (10 bits).
pub const MAX_OBJECT_TYPE: u16 = 1023;

/// Object type number of the Device object.
pub const OBJECT_TYPE_DEVICE: u16 = 8;

/// A BACnet object identifier: a 10-bit object type and a 22-bit instance.
#[derive(Clone, Copy, Debug, PartialEq, Eq, Structural)]
pub struct ObjectIdentifier {
    pub object_type: u16,
    pub instance: u32,
}

impl ObjectIdentifier {
    /// An object identifier, when both parts fit their bit widths.
    pub fn new(object_type: u16, instance: u32) -> (r: Result<ObjectIdentifier, Error>)
        ensures
            object_type <= MAX_OBJECT_TYPE && instance <= MAX_INSTANCE ==> r == Ok::<
                ObjectIdentifier,
                Error,
            >(ObjectIdentifier { object_type, instance }),
            !(object_type <= MAX_OBJECT_TYPE && instance <= MAX_INSTANCE) ==> (r matches Err(
                Error::Encoding(m),
            ) && m@ == "object identifier out of range"@),
    {
        if object_type <= MAX_OBJECT_TYPE && instance <= MAX_INSTANCE {
            Ok(ObjectIdentifier { object_type, instance })
        } else {
            Err(Error::Encoding(String::from_str("object identifier out of range")))
        }
    }
}

/// An NPDU source or destination address: network number and MAC.
#[derive(Debug)]
pub struct NpduAddress {
    pub network: u16,
    pub mac_address: Vec<u8>,
}

/// Segmentation support advertised by a device (Clause 21 `BACnetSegmentation`).
#[derive(Clone, Copy, Debug, PartialEq, Eq, Structural)]
pub enum Segmentation {
    Both,
    Transmit,
    Receive,
    NoSegmentation,
}

/// BACnet reject reason: other.
pub const REJECT_OTHER: u8 = 0;
/// BACnet reject reason: invalid-parameter-data-type.
pub const REJECT_INVALID_PARAMETER_DATA_TYPE: u8 = 3;
/// BACnet reject reason: missing-required-parameter.
pub const REJECT_MISSING_REQUIRED_PARAMETER: u8 = 5;
/// BACnet reject reason: unrecognized-service.
pub const REJECT_UNRECOGNIZED_SERVICE: u8 = 9;

/// BACnet abort reason: buffer-overflow.
pub const ABORT_BUFFER_OVERFLOW: u8 = 1;
/// BACnet abort reason: invalid-apdu-in-this-state.
pub const ABORT_INVALID_APDU_IN_THIS_STATE: u8 = 2;
/// BACnet abort reason: segmentation-not-supported.
pub const ABORT_SEGMENTATION_NOT_SUPPORTED: u8 = 4;
/// BACnet abort reason: tsm-timeout.
pub const ABORT_TSM_TIMEOUT: u8 = 10;

} // verus!
