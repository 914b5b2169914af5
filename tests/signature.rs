use jpegxl_rs::signature::{check_signature, check_valid_signature, Signature};

/// The opening bytes of a bare codestream: the two-byte signature followed by
/// the start of a size header.
const CODESTREAM_HEAD: [u8; 8] = [0xFF, 0x0A, 0xFA, 0x1F, 0x42, 0x03, 0x00, 0x00];

const CONTAINER_SIG: [u8; 12] = [
    0x00, 0x00, 0x00, 0x0C, 0x4A, 0x58, 0x4C, 0x20, 0x0D, 0x0A, 0x87, 0x0A,
];

#[test]
fn test_signature() {
    assert!(check_valid_signature(&[]).is_none());
    assert_eq!(check_valid_signature(&[0; 64]), Some(false));
    assert_eq!(check_valid_signature(&CODESTREAM_HEAD), Some(true));
}

#[test]
fn test_signature_partial_data() {
    assert!(check_valid_signature(&[0]).is_none());
    assert!(check_valid_signature(&[0, 0]).is_none());

    assert_eq!(check_valid_signature(&[0xFF, 0x0A]), Some(true));

    let container_sig = [
        0x00, 0x00, 0x00, 0x0C, 0x4A, 0x58, 0x4C, 0x20, 0x0D, 0x0A, 0x87, 0x0A,
    ];
    assert_eq!(check_valid_signature(&container_sig), Some(true));
}

#[test]
fn test_signature_invalid_data() {
    assert_eq!(
        check_valid_signature(&[0x89, 0x50, 0x4E, 0x47]),
        Some(false)
    );
    assert_eq!(
        check_valid_signature(&[0xFF, 0xD8, 0xFF, 0xE0]),
        Some(false)
    );
    assert_eq!(
        check_valid_signature(&[0x47, 0x49, 0x46, 0x38]),
        Some(false)
    );
    assert_eq!(check_valid_signature(b"not a jxl file"), Some(false));
}

#[test]
fn signature_kinds_are_told_apart() {
    assert_eq!(check_signature(&CODESTREAM_HEAD), Signature::Codestream);
    assert_eq!(check_signature(&CONTAINER_SIG), Signature::Container);
    let mut longer = CONTAINER_SIG.to_vec();
    longer.extend_from_slice(&[0, 0, 0, 20, b'f', b't', b'y', b'p']);
    assert_eq!(check_signature(&longer), Signature::Container);
    assert_eq!(check_signature(&[0xFF]), Signature::NotEnoughBytes);
}

#[test]
fn every_truncated_signature_needs_more_bytes() {
    for len in 0..CONTAINER_SIG.len() {
        assert_eq!(check_valid_signature(&CONTAINER_SIG[..len]), None, "container prefix {len}");
    }
    for len in 0..2 {
        assert_eq!(check_valid_signature(&CODESTREAM_HEAD[..len]), None, "codestream prefix {len}");
    }
}

#[test]
fn foreign_first_bytes_are_invalid() {
    assert_eq!(check_valid_signature(&[0x01]), Some(false));
    assert_eq!(check_valid_signature(&[0xFF, 0x0B]), Some(false));
    assert_eq!(check_valid_signature(&[0x00, 0x01]), Some(false));
    let mut bad_tail = CONTAINER_SIG;
    bad_tail[11] = 0x0B;
    assert_eq!(check_valid_signature(&bad_tail), Some(false));
}
