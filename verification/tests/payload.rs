use kakaia::{checked_payload, decode_payload, PayloadError};

#[test]
fn decodes_standard_base64() {
    assert_eq!(decode_payload("aGVsbG8=", 4_194_304).unwrap(), b"hello".to_vec());
    assert_eq!(decode_payload("aGVsbG8gd29ybGQ=", 4_194_304).unwrap(), b"hello world".to_vec());
    assert_eq!(decode_payload("", 4_194_304).unwrap(), Vec::<u8>::new());
    assert_eq!(decode_payload("AAECAwT/", 8).unwrap(), vec![0u8, 1, 2, 3, 4, 255]);
    assert_eq!(decode_payload("+/8=", 4).unwrap(), vec![0xfbu8, 0xff]);
}

#[test]
fn decoding_is_not_the_identity() {
    let text = "UklGRg==";
    let bytes = decode_payload(text, 100).unwrap();
    assert_eq!(bytes, b"RIFF".to_vec());
    assert_ne!(bytes, text.as_bytes().to_vec());
}

#[test]
fn text_that_is_no_base64_is_malformed() {
    match decode_payload("!!!!", 100) {
        Err(PayloadError::Malformed(message)) => assert_eq!(message, "Invalid byte 33, offset 0."),
        other => panic!("expected a malformed payload, got {:?}", other),
    }
    match decode_payload("a", 100) {
        Err(PayloadError::Malformed(message)) => {
            assert_eq!(message, "Encoded text cannot have a 6-bit remainder.")
        }
        other => panic!("expected a malformed payload, got {:?}", other),
    }
    match decode_payload("aGVsbG8-", 100) {
        Err(PayloadError::Malformed(_)) => {}
        other => panic!("expected a malformed payload, got {:?}", other),
    }
}

#[test]
fn text_over_the_limit_is_too_large() {
    assert!(matches!(decode_payload("aGVsbG8=", 7), Err(PayloadError::TooLarge)));
    assert!(matches!(decode_payload("!!!!", 3), Err(PayloadError::TooLarge)));
    assert!(matches!(decode_payload("a", 0), Err(PayloadError::TooLarge)));
    assert!(decode_payload("aGVsbG8=", 8).is_ok());
    assert!(decode_payload("", 0).is_ok());
    assert!(decode_payload("aGVsbG8=", usize::MAX).is_ok());
}

#[test]
fn checked_payload_passes_bytes_and_wraps_the_message() {
    assert_eq!(checked_payload(Ok(vec![1, 2, 3])).unwrap(), vec![1u8, 2, 3]);
    match checked_payload(Err("no good".to_string())) {
        Err(PayloadError::Malformed(message)) => assert_eq!(message, "no good"),
        other => panic!("expected a malformed payload, got {:?}", other),
    }
}
