use bucky_crypto::{be_u64_bytes, read_be_u64, ErrorCode, SignData, Signature};
use bucky_raw_codec::RawConvertTo;

#[test]
fn signature() {
    let sig1 = Signature::default();
    let buf = sig1.to_vec();
    let sig2 = Signature::clone_from_slice(&buf).unwrap();
    assert_eq!(sig1, sig2)
}

#[test]
fn signature_wire_layout() {
    let sig = Signature::new(0x0102030405060708, SignData::Ecc([7u8; 64]));
    let buf = sig.to_vec();
    assert_eq!(buf.len(), 73);
    assert_eq!(sig.raw_measure(), 73);
    assert_eq!(&buf[..8], &[1, 2, 3, 4, 5, 6, 7, 8]);
    assert_eq!(buf[8], 5);
    assert_eq!(&buf[9..], &[7u8; 64][..]);
    assert_eq!(sig.sign().sign_type(), "ecc");
    assert_eq!(sig.as_slice(), &[7u8; 64][..]);
    assert_eq!(sig.sign_time(), 0x0102030405060708);
}

#[test]
fn signature_widths_per_tag() {
    let cases = [
        (SignData::Rsa1024([1u8; 128]), 0u8, 128usize, "rsa1024"),
        (SignData::Rsa2048([2u8; 256]), 1u8, 256usize, "rsa2048"),
        (SignData::Rsa3072([3u8; 384]), 2u8, 384usize, "rsa3072"),
        (SignData::Ecc([4u8; 64]), 5u8, 64usize, "ecc"),
    ];
    for (data, tag, width, name) in cases {
        assert_eq!(data.tag(), tag);
        assert_eq!(data.as_slice().len(), width);
        assert_eq!(data.sign_type(), name);
        let sig = Signature::new(42, data);
        let mut buf = sig.to_vec();
        assert_eq!(buf.len(), 9 + width);
        buf.extend_from_slice(b"tail");
        let (back, rest) = Signature::raw_decode(&buf).unwrap();
        assert_eq!(back, sig);
        assert_eq!(rest, b"tail");
        assert_eq!(back.to_vec(), buf[..9 + width].to_vec());
    }
}

#[test]
fn signature_decode_errors() {
    let sig = Signature::new(7, SignData::Rsa1024([9u8; 128]));
    let buf = sig.to_vec();
    for k in 0..buf.len() {
        assert!(matches!(Signature::raw_decode(&buf[..k]), Err(ErrorCode::OutOfLimit)));
    }
    let mut bad = buf.clone();
    bad[8] = 3;
    assert!(matches!(Signature::raw_decode(&bad), Err(ErrorCode::NotMatch)));
    assert_eq!(Signature::clone_from_slice(&bad), Err(ErrorCode::NotMatch));
}

#[test]
fn signature_encode_into_short_buffer() {
    let sig = Signature::new(7, SignData::Ecc([9u8; 64]));
    let mut short = vec![0u8; 72];
    assert_eq!(sig.raw_encode(&mut short), Err(ErrorCode::OutOfLimit));
    assert_eq!(short, vec![0u8; 72]);
    let mut exact = vec![0u8; 80];
    assert_eq!(sig.raw_encode(&mut exact), Ok(73));
    assert_eq!(&exact[..73], &sig.to_vec()[..]);
    assert_eq!(&exact[73..], &[0u8; 7]);
}

#[test]
fn signatures_at_different_times_differ() {
    let a = Signature::new(1000, SignData::Ecc([5u8; 64]));
    let b = Signature::new(1001, SignData::Ecc([5u8; 64]));
    assert_ne!(a.to_vec(), b.to_vec());
}

#[test]
fn rsa_signature_packing() {
    assert_eq!(SignData::from_rsa_signature(&[1u8; 256]), Ok(SignData::Rsa2048([1u8; 256])));
    assert_eq!(SignData::from_rsa_signature(&[1u8; 64]), Err(ErrorCode::UnSupport));
}

#[test]
fn integers_are_big_endian_like_the_raw_codec() {
    let v: u64 = 0x1122334455667788;
    let ours = be_u64_bytes(v);
    let theirs = v.to_vec().unwrap();
    assert_eq!(ours.to_vec(), theirs);
    assert_eq!(read_be_u64(&theirs), v);
    let w: u16 = 0xabcd;
    assert_eq!(bucky_crypto::be_u16_bytes(w).to_vec(), w.to_vec().unwrap());
}
