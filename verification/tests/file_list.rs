use bacnet_client::error::Error;
use bacnet_client::file_access::{
    validate_atomic_read_file_ack, validate_read_range_ack, AtomicReadFileAck, Date,
    FileAccessMethod, FileReadAckMethod, RangeSpec, ReadRangeAck, ReadRangeRequest, Time,
};
use bacnet_client::model::ObjectIdentifier;

const TREND_LOG: u16 = 20;
const LOG_BUFFER: u32 = 131;
const PRESENT_VALUE: u32 = 85;

fn request(range: Option<RangeSpec>) -> ReadRangeRequest {
    ReadRangeRequest {
        object_identifier: ObjectIdentifier::new(TREND_LOG, 1).unwrap(),
        property_identifier: LOG_BUFFER,
        property_array_index: Some(1),
        range,
    }
}

fn ack(request: &ReadRangeRequest, item_count: u32, first: Option<u32>) -> ReadRangeAck {
    ReadRangeAck {
        object_identifier: request.object_identifier,
        property_identifier: request.property_identifier,
        property_array_index: request.property_array_index,
        result_flags: (true, true, false),
        item_count,
        item_data: Vec::new(),
        first_sequence_number: first,
    }
}

#[test]
fn read_range_ack_must_echo_the_request() {
    let request = request(Some(RangeSpec::ByPosition { reference_index: 1, count: 1 }));
    assert!(validate_read_range_ack(&request, &ack(&request, 1, None)).is_ok());

    let mut wrong_object = ack(&request, 1, None);
    wrong_object.object_identifier = ObjectIdentifier::new(TREND_LOG, 2).unwrap();
    assert!(validate_read_range_ack(&request, &wrong_object).is_err());

    let mut wrong_property = ack(&request, 1, None);
    wrong_property.property_identifier = PRESENT_VALUE;
    assert!(validate_read_range_ack(&request, &wrong_property).is_err());

    let mut wrong_index = ack(&request, 1, None);
    wrong_index.property_array_index = Some(2);
    assert!(validate_read_range_ack(&request, &wrong_index).is_err());
}

#[test]
fn first_sequence_number_must_match_the_requested_range() {
    let by_sequence = request(Some(RangeSpec::BySequenceNumber { reference_seq: 1, count: 1 }));
    assert!(validate_read_range_ack(&by_sequence, &ack(&by_sequence, 1, Some(1))).is_ok());
    assert!(validate_read_range_ack(&by_sequence, &ack(&by_sequence, 1, None)).is_ok());
    assert!(validate_read_range_ack(&by_sequence, &ack(&by_sequence, 0, None)).is_ok());
    assert!(validate_read_range_ack(&by_sequence, &ack(&by_sequence, 0, Some(1))).is_err());

    let by_time = request(Some(RangeSpec::ByTime {
        reference_time: (
            Date { year: 126, month: 3, day: 1, day_of_week: 7 },
            Time { hour: 14, minute: 30, second: 0, hundredths: 0 },
        ),
        count: 1,
    }));
    assert!(validate_read_range_ack(&by_time, &ack(&by_time, 1, Some(1))).is_ok());

    let by_position = request(Some(RangeSpec::ByPosition { reference_index: 1, count: 1 }));
    assert!(validate_read_range_ack(&by_position, &ack(&by_position, 1, Some(1))).is_err());
}

#[test]
fn read_range_mismatch_messages_name_the_field() {
    let request = request(None);
    let mut wrong_object = ack(&request, 0, None);
    wrong_object.object_identifier = ObjectIdentifier::new(TREND_LOG, 2).unwrap();
    match validate_read_range_ack(&request, &wrong_object) {
        Err(Error::Decoding { offset, message }) => {
            assert_eq!(offset, 0);
            assert_eq!(message, "ReadRange ACK object identifier does not match the request");
        }
        other => panic!("unexpected {other:?}"),
    }
    assert!(validate_read_range_ack(&request, &ack(&request, 3, Some(9))).is_err());
}

fn stream_request(count: u32) -> FileAccessMethod {
    FileAccessMethod::Stream { file_start_position: 4, requested_octet_count: count }
}

fn record_request(count: u32) -> FileAccessMethod {
    FileAccessMethod::Record { file_start_record: 4, requested_record_count: count }
}

#[test]
fn decoded_atomic_read_file_rejects_access_arm_mismatch() {
    let ack = AtomicReadFileAck {
        end_of_file: true,
        access: FileReadAckMethod::Record { file_start_record: 4, returned_record_count: 0, file_record_data: vec![] },
    };
    assert!(validate_atomic_read_file_ack(&stream_request(1), &ack).is_err());

    let ack = AtomicReadFileAck {
        end_of_file: true,
        access: FileReadAckMethod::Stream { file_start_position: 4, file_data: vec![] },
    };
    assert!(validate_atomic_read_file_ack(&record_request(1), &ack).is_err());
}

#[test]
fn decoded_atomic_read_file_rejects_oversized_window() {
    let stream_ack = AtomicReadFileAck {
        end_of_file: false,
        access: FileReadAckMethod::Stream { file_start_position: 4, file_data: vec![1, 2, 3] },
    };
    assert!(validate_atomic_read_file_ack(&stream_request(2), &stream_ack).is_err());

    let record_ack = AtomicReadFileAck {
        end_of_file: false,
        access: FileReadAckMethod::Record {
            file_start_record: 4,
            returned_record_count: 2,
            file_record_data: vec![vec![1], vec![2]],
        },
    };
    assert!(validate_atomic_read_file_ack(&record_request(1), &record_ack).is_err());
}

#[test]
fn decoded_atomic_read_file_accepts_matching_bounded_window() {
    let stream_ack = AtomicReadFileAck {
        end_of_file: true,
        access: FileReadAckMethod::Stream { file_start_position: 9, file_data: vec![1, 2] },
    };
    assert!(validate_atomic_read_file_ack(&stream_request(2), &stream_ack).is_ok());

    let record_ack = AtomicReadFileAck {
        end_of_file: true,
        access: FileReadAckMethod::Record {
            file_start_record: 9,
            returned_record_count: 2,
            file_record_data: vec![vec![], vec![0xFF]],
        },
    };
    assert!(validate_atomic_read_file_ack(&record_request(2), &record_ack).is_ok());
}
