use bacnet_client::event_text::{
    constructed_value_end, decode_tag, invalid_message_text_range, is_decodable_char_string,
    is_valid_utf8, notification_prefix_end, without_undecodable_text, TagHeader,
};

// process 42, device 100, analog input 7, sequence 5, class 2, priority 16,
// out-of-range alarm, from normal to high limit.
const PREFIX: &[u8] = &[
    0x09, 42, 0x1c, 2, 0, 0, 100, 0x2c, 0, 0, 0, 7, 0x3e, 0x19, 5, 0x3f, 0x49, 2, 0x59, 16, 0x69, 5,
];
const SUFFIX: &[u8] = &[
    0x89, 0, 0x99, 1, 0xa9, 0, 0xb9, 3, 0xce, 0x5e, 0x0c, 0x42, 0x48, 0, 0, 0x1a, 4, 0, 0x2c, 0x3f,
    0x80, 0, 0, 0x3c, 0x42, 0x40, 0, 0, 0x5f, 0xcf,
];

fn text_tag(len: usize) -> Vec<u8> {
    if len <= 4 {
        vec![0x78 | len as u8]
    } else if len <= 253 {
        vec![0x7d, len as u8]
    } else {
        vec![0x7d, 254, (len >> 8) as u8, len as u8]
    }
}

fn payload(text: Option<&[u8]>) -> Vec<u8> {
    let mut data = PREFIX.to_vec();
    if let Some(text) = text {
        data.extend_from_slice(&text_tag(text.len()));
        data.extend_from_slice(text);
    }
    data.extend_from_slice(SUFFIX);
    data
}

fn invalid_text_cases() -> Vec<Vec<u8>> {
    let mut cases = vec![
        vec![0, 0xff],
        vec![4, 0],
        vec![4, 0xd8, 0],
        vec![1, b'A'],
        vec![2, b'A'],
        vec![3, 0, 0, 0, b'A'],
        vec![0xfe, b'A'],
    ];
    let mut extended = vec![0; 300];
    extended[299] = 0xff;
    cases.push(extended);
    cases
}

#[test]
fn tag_headers_decode_per_clause_20_2_1() {
    let h = |number, length| TagHeader { number, context: true, opening: false, closing: false, length };
    assert_eq!(decode_tag(&[0x09, 42], 0), Some((h(0, 1), 1)));
    assert_eq!(decode_tag(&[0x3e], 0), Some((TagHeader { number: 3, context: true, opening: true, closing: false, length: 0 }, 1)));
    assert_eq!(decode_tag(&[0x3f], 0), Some((TagHeader { number: 3, context: true, opening: false, closing: true, length: 0 }, 1)));
    assert_eq!(decode_tag(&[0x7d, 9], 0), Some((h(7, 9), 2)));
    assert_eq!(decode_tag(&[0x7d, 254, 0x01, 0x2c], 0), Some((h(7, 300), 4)));
    assert_eq!(decode_tag(&[0x7d, 255, 0, 1, 0, 0], 0), Some((h(7, 65536), 6)));
    assert_eq!(decode_tag(&[0xf9, 40, 1], 0), Some((h(40, 1), 2)));
    assert_eq!(decode_tag(&[0x21, 7], 0).unwrap().0.context, false);
    assert_eq!(decode_tag(&[0x7d], 0), None);
    assert_eq!(decode_tag(&[0x7d, 254, 1], 0), None);
    assert_eq!(decode_tag(&[0x26], 0), None);
    assert_eq!(decode_tag(&[0xf9], 0), None);
    assert_eq!(decode_tag(&[], 0), None);
}

#[test]
fn fixed_prefix_walks_seven_fields() {
    assert_eq!(notification_prefix_end(&payload(None)), Some(PREFIX.len()));
    assert_eq!(constructed_value_end(PREFIX, 13, 3), Some(16));
    let mut wrong_prefix = payload(None);
    wrong_prefix[0] = 0x19;
    assert_eq!(notification_prefix_end(&wrong_prefix), None);
    let mut wrong_timestamp = payload(None);
    wrong_timestamp[15] = 0x4f;
    assert_eq!(notification_prefix_end(&wrong_timestamp), None);
    assert_eq!(notification_prefix_end(&PREFIX[..10]), None);
}

#[test]
fn character_strings_decode_in_three_character_sets() {
    assert!(is_decodable_char_string(&[0]));
    assert!(is_decodable_char_string(&[0, b'O', b'K']));
    assert!(is_decodable_char_string(&[4, 0, b'O', 0, b'K']));
    assert!(is_decodable_char_string(&[5, 0xe9]));
    assert!(is_decodable_char_string(&[0, 0xc3, 0xa9]));
    assert!(!is_decodable_char_string(&[]));
    for text in invalid_text_cases() {
        assert!(!is_decodable_char_string(&text), "{text:?}");
    }
}

#[test]
fn utf8_validation_follows_rfc_3629() {
    assert!(is_valid_utf8(b"plain ascii"));
    assert!(is_valid_utf8("é€😀".as_bytes()));
    assert!(!is_valid_utf8(&[0xc0, 0x80]));
    assert!(!is_valid_utf8(&[0xed, 0xa0, 0x80]));
    assert!(!is_valid_utf8(&[0xf4, 0x90, 0x80, 0x80]));
    assert!(!is_valid_utf8(&[0xe2, 0x82]));
    assert!(!is_valid_utf8(&[0x80]));
    for bytes in [&[0xe0, 0xa0, 0x80][..], &[0xf0, 0x90, 0x80, 0x80], &[0x7f], &[0xdf, 0xbf]] {
        assert_eq!(is_valid_utf8(bytes), std::str::from_utf8(bytes).is_ok());
    }
}

#[test]
fn undecodable_text_is_removed_and_nothing_else() {
    let expected: Vec<u8> = [PREFIX, SUFFIX].concat();
    for text in invalid_text_cases() {
        let data = payload(Some(&text));
        let header = text_tag(text.len()).len();
        assert_eq!(invalid_message_text_range(&data), Some((PREFIX.len(), PREFIX.len() + header + text.len())));
        assert_eq!(without_undecodable_text(&data), Some(expected.clone()));
    }
}

#[test]
fn decodable_or_absent_text_is_kept() {
    let cases: [Option<&[u8]>; 5] = [None, Some(&[0]), Some(&[0, b'O', b'K']), Some(&[4, 0, b'O', 0, b'K']), Some(&[5, 0xe9])];
    for text in cases {
        assert_eq!(invalid_message_text_range(&payload(text)), None);
    }
}

#[test]
fn malformed_text_fields_are_not_removed() {
    for text_tlv in [
        &[0x7e, 0x7f][..],
        &[0x72, 0, 0xff],
        &[0x7d, 0xff, 0xff, 0xff, 0xff, 0xff],
        &[0x7d],
        &[0x7a, 0, 0xff, 0x7a, 0, 0xff],
        &[0x7a, 0, 0xff, 0x79, 0],
        &[0x79, 0, 0x7a, 0, 0xff],
    ] {
        let data: Vec<u8> = [PREFIX, text_tlv, SUFFIX].concat();
        assert_eq!(invalid_message_text_range(&data), None, "{text_tlv:?}");
    }
    assert_eq!(invalid_message_text_range(&[]), None);
    let mut wrong_timestamp = payload(Some(&[0, 0xff]));
    wrong_timestamp[15] = 0x4f;
    assert_eq!(without_undecodable_text(&wrong_timestamp), None);
}
