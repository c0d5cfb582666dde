//! Checks that a decoded ReadRange or AtomicReadFile acknowledgment answers
//! the request it was sent for.

use vstd::prelude::*;
use vstd::string::*;

use crate::error::Error;
use crate::model::ObjectIdentifier;

verus! {

/// A BACnet date.
#[derive(Clone, Copy, PartialEq, Eq, Structural)]
pub struct Date {
    pub year: u8,
    pub month: u8,
    pub day: u8,
    pub day_of_week: u8,
}

/// A BACnet time of day.
#[derive(Clone, Copy, PartialEq, Eq, Structural)]
pub struct Time {
    pub hour: u8,
    pub minute: u8,
    pub second: u8,
    pub hundredths: u8,
}

/// The range a ReadRange request selects.
#[derive(Clone, Copy)]
pub enum RangeSpec {
    ByPosition { reference_index: u32, count: i32 },
    BySequenceNumber { reference_seq: u32, count: i32 },
    ByTime { reference_time: (Date, Time), count: i32 },
}

/// A ReadRange request.
pub struct ReadRangeRequest {
    pub object_identifier: ObjectIdentifier,
    pub property_identifier: u32,
    pub property_array_index: Option<u32>,
    pub range: Option<RangeSpec>,
}

/// A decoded ReadRange acknowledgment.
pub struct ReadRangeAck {
    pub object_identifier: ObjectIdentifier,
    pub property_identifier: u32,
    pub property_array_index: Option<u32>,
    /// FIRST_ITEM, LAST_ITEM, MORE_ITEMS.
    pub result_flags: (bool, bool, bool),
    pub item_count: u32,
    pub item_data: Vec<u8>,
    pub first_sequence_number: Option<u32>,
}

/// Whether the request selects its range by sequence number or by time, the
/// ranges for which an acknowledgment carries a first sequence number.
pub open spec fn selects_by_sequence(range: Option<RangeSpec>) -> bool {
    match range {
        Some(RangeSpec::BySequenceNumber { .. }) => true,
        Some(RangeSpec::ByTime { .. }) => true,
        _ => false,
    }
}

/// A ReadRange acknowledgment that answers `request`: it echoes the object,
/// property and array index, and carries a first sequence number only for a
/// by-sequence or by-time range that returned items.
pub open spec fn read_range_ack_answers(request: ReadRangeRequest, ack: ReadRangeAck) -> bool {
    &&& ack.object_identifier == request.object_identifier
    &&& ack.property_identifier == request.property_identifier
    &&& ack.property_array_index == request.property_array_index
    &&& ack.first_sequence_number is Some ==> selects_by_sequence(request.range) && ack.item_count > 0
}

/// Reject a ReadRange acknowledgment that does not answer `request`; the
/// checks come in the order object, property, array index, first sequence
/// number.
pub fn validate_read_range_ack(request: &ReadRangeRequest, ack: &ReadRangeAck) -> (r: Result<(), Error>)
    ensures
        r is Ok <==> read_range_ack_answers(*request, *ack),
        ack.object_identifier != request.object_identifier ==> (r matches Err(
            Error::Decoding { offset, message },
        ) && offset == 0 && message@ == "ReadRange ACK object identifier does not match the request"@),
        ack.object_identifier == request.object_identifier && ack.property_identifier
            != request.property_identifier ==> (r matches Err(Error::Decoding { offset, message })
            && offset == 0 && message@ == "ReadRange ACK property identifier does not match the request"@),
        ack.object_identifier == request.object_identifier && ack.property_identifier
            == request.property_identifier && ack.property_array_index != request.property_array_index
            ==> (r matches Err(Error::Decoding { offset, message }) && offset == 0 && message@
            == "ReadRange ACK array index does not match the request"@),
        r is Err ==> (r matches Err(Error::Decoding { offset, .. }) && offset == 0),
        ack.object_identifier == request.object_identifier && ack.property_identifier
            == request.property_identifier && ack.property_array_index == request.property_array_index
            && !read_range_ack_answers(*request, *ack) ==> (r matches Err(Error::Decoding { message, .. })
            && message@ == "ReadRange ACK first sequence number is invalid for the request range"@),
{
    if ack.object_identifier != request.object_identifier {
        return Err(Error::decoding(0, "ReadRange ACK object identifier does not match the request"));
    }
    if ack.property_identifier != request.property_identifier {
        return Err(Error::decoding(0, "ReadRange ACK property identifier does not match the request"));
    }
    if ack.property_array_index != request.property_array_index {
        return Err(Error::decoding(0, "ReadRange ACK array index does not match the request"));
    }
    let sequence_range = match request.range {
        Some(RangeSpec::BySequenceNumber { .. }) => true,
        Some(RangeSpec::ByTime { .. }) => true,
        _ => false,
    };
    let permits_first_sequence_number = sequence_range && ack.item_count > 0;
    if ack.first_sequence_number.is_some() && !permits_first_sequence_number {
        return Err(
            Error::decoding(0, "ReadRange ACK first sequence number is invalid for the request range"),
        );
    }
    Ok(())
}

/// How an AtomicReadFile request reads the file.
#[derive(Clone, Copy, PartialEq, Eq, Structural)]
pub enum FileAccessMethod {
    Stream { file_start_position: i32, requested_octet_count: u32 },
    Record { file_start_record: i32, requested_record_count: u32 },
}

/// What an AtomicReadFile acknowledgment returned.
pub enum FileReadAckMethod {
    Stream { file_start_position: i32, file_data: Vec<u8> },
    Record { file_start_record: i32, returned_record_count: u32, file_record_data: Vec<Vec<u8>> },
}

/// A decoded AtomicReadFile acknowledgment.
pub struct AtomicReadFileAck {
    pub end_of_file: bool,
    pub access: FileReadAckMethod,
}

/// An AtomicReadFile acknowledgment that answers `request`: the same access
/// method, and no more octets or records than were asked for.
pub open spec fn read_file_ack_answers(request: FileAccessMethod, ack: AtomicReadFileAck) -> bool {
    match (request, ack.access) {
        (
            FileAccessMethod::Stream { requested_octet_count, .. },
            FileReadAckMethod::Stream { file_data, .. },
        ) => file_data@.len() <= requested_octet_count,
        (
            FileAccessMethod::Record { requested_record_count, .. },
            FileReadAckMethod::Record { returned_record_count, file_record_data, .. },
        ) => returned_record_count <= requested_record_count && file_record_data@.len()
            <= requested_record_count,
        _ => false,
    }
}

/// Reject an AtomicReadFile acknowledgment that does not answer `request`.
pub fn validate_atomic_read_file_ack(request: &FileAccessMethod, ack: &AtomicReadFileAck) -> (r: Result<
    (),
    Error,
>)
    ensures
        r is Ok <==> read_file_ack_answers(*request, *ack),
        r is Err ==> (r matches Err(Error::Decoding { offset, message }) && offset == 0 && message@
            == match (*request, ack.access) {
            (FileAccessMethod::Stream { .. }, FileReadAckMethod::Stream { .. }) =>
                "AtomicReadFile ACK returned more octets than requested"@,
            (FileAccessMethod::Record { .. }, FileReadAckMethod::Record { .. }) =>
                "AtomicReadFile ACK returned more records than requested"@,
            _ => "AtomicReadFile ACK access method does not match the request"@,
        }),
{
    match (request, &ack.access) {
        (
            FileAccessMethod::Stream { requested_octet_count, .. },
            FileReadAckMethod::Stream { file_data, .. },
        ) => {
            if file_data.len() as u64 > *requested_octet_count as u64 {
                return Err(
                    Error::decoding(0, "AtomicReadFile ACK returned more octets than requested"),
                );
            }
            Ok(())
        },
        (
            FileAccessMethod::Record { requested_record_count, .. },
            FileReadAckMethod::Record { returned_record_count, file_record_data, .. },
        ) => {
            if *returned_record_count > *requested_record_count || file_record_data.len() as u64
                > *requested_record_count as u64 {
                return Err(
                    Error::decoding(0, "AtomicReadFile ACK returned more records than requested"),
                );
            }
            Ok(())
        },
        _ => Err(Error::decoding(0, "AtomicReadFile ACK access method does not match the request")),
    }
}

} // verus!
