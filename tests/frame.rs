use bucky_crypto::{decode_key_frame, encode_key_frame, ErrorCode};

#[test]
fn rsa_frame_has_big_endian_length() {
    let body = vec![7u8; 300];
    let frame = encode_key_frame(0, &body);
    assert_eq!(&frame[..3], &[0, 1, 44]);
    assert_eq!(frame.len(), 303);
    let mut chained = frame.clone();
    chained.extend_from_slice(&[1, 2]);
    let (tag, got, rest) = decode_key_frame(&chained, 32).unwrap();
    assert_eq!(tag, 0);
    assert_eq!(got, &body[..]);
    assert_eq!(rest, &[1, 2]);
}

#[test]
fn secp_frame_has_fixed_body() {
    let body = [9u8; 33];
    let frame = encode_key_frame(5, &body);
    assert_eq!(frame.len(), 34);
    let (tag, got, rest) = decode_key_frame(&frame, 33).unwrap();
    assert_eq!(tag, 5);
    assert_eq!(got, &body[..]);
    assert!(rest.is_empty());
    assert!(matches!(decode_key_frame(&frame[..33], 33), Err(ErrorCode::OutOfLimit)));
}

#[test]
fn frame_decode_errors() {
    assert!(matches!(decode_key_frame(&[], 32), Err(ErrorCode::OutOfLimit)));
    assert!(matches!(decode_key_frame(&[0, 1], 32), Err(ErrorCode::OutOfLimit)));
    assert!(matches!(decode_key_frame(&[0, 0, 3, 1, 1], 32), Err(ErrorCode::OutOfLimit)));
    assert!(matches!(decode_key_frame(&[1, 0, 0], 32), Err(ErrorCode::InvalidData)));
}

#[test]
fn wrapped_blocks_split_off_the_front() {
    let input = [1u8, 2, 3, 4, 5];
    let (block, rest) = bucky_crypto::split_wrapped(&input, 3).unwrap();
    assert_eq!(block, &[1, 2, 3]);
    assert_eq!(rest, &[4, 5]);
    assert!(matches!(bucky_crypto::split_wrapped(&input, 6), Err(ErrorCode::InvalidFormat)));
}
