use bacnet_client::error::Error;
use bacnet_client::model::ObjectIdentifier;

#[test]
fn error_messages_render_their_numbers() {
    assert_eq!(Error::Protocol { class: 2, code: 31 }.message(), "BACnet error: class=2, code=31");
    assert_eq!(Error::Reject { reason: 9 }.message(), "BACnet reject: reason=9");
    assert_eq!(Error::Abort { reason: 10 }.message(), "BACnet abort: reason=10");
    assert_eq!(
        Error::RoutedPathTooLong { dnet: 1234 }.message(),
        "routed path to network 1234 rejected the message as too long"
    );
    assert_eq!(
        Error::RoutedPathCapacityExceeded { capacity: 256 }.message(),
        "routed path table capacity 256 exceeded"
    );
    assert_eq!(Error::Timeout { millis: 0 }.message(), "timed out after 0 ms");
    assert_eq!(
        Error::Timeout { millis: u64::MAX }.message(),
        "timed out after 18446744073709551615 ms"
    );
    assert_eq!(Error::Encoding("x".to_string()).message(), "x");
    assert_eq!(Error::decoding(3, "bad tag").message(), "bad tag");
    assert!(matches!(Error::decoding(3, "bad tag"), Error::Decoding { offset: 3, .. }));
}

#[test]
fn object_identifiers_fit_their_bit_widths() {
    assert_eq!(ObjectIdentifier::new(8, 0x3F_FFFF).unwrap(), ObjectIdentifier { object_type: 8, instance: 0x3F_FFFF });
    assert!(matches!(ObjectIdentifier::new(8, 0x40_0000), Err(Error::Encoding(_))));
    assert!(matches!(ObjectIdentifier::new(1024, 1), Err(Error::Encoding(_))));
    assert!(ObjectIdentifier::new(1023, 0).is_ok());
}
