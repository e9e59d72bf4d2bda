use bucky_crypto::{
    hash_data, session_key_from_shared, signing_digest, ErrorCode, PrivateKey, PrivateKeyType,
    PublicKey, SignData, Signature,
};

fn rsa_private_key_sign(bits: usize) {
    let msg = b"112233445566778899";
    let pk1 = PrivateKey::generate_rsa(bits).unwrap();
    let sign = pk1.sign(msg).unwrap();
    assert!(pk1.public().verify(msg, &sign));

    let pk1_buf = pk1.to_vec().unwrap();
    let (pk2, buf) = PrivateKey::raw_decode(&pk1_buf).unwrap();
    assert!(buf.len() == 0);

    assert!(pk2.public().verify(msg, &sign));

    let buf = sign.to_vec();
    let sign2 = Signature::clone_from_slice(&buf).unwrap();
    assert_eq!(sign, sign2);
}

fn secp_private_key_sign() {
    let msg = b"112233445566778899";
    let pk1 = PrivateKey::generate_secp256k1().unwrap();
    let sign = pk1.sign(msg).unwrap();
    assert!(pk1.public().verify(msg, &sign));

    let pk1_buf = pk1.to_vec().unwrap();
    let (pk2, buf) = PrivateKey::raw_decode(&pk1_buf).unwrap();
    assert!(buf.len() == 0);

    assert!(pk2.public().verify(msg, &sign));

    let buf = sign.to_vec();
    let sign2 = Signature::clone_from_slice(&buf).unwrap();
    assert_eq!(sign, sign2);
}

#[test]
fn private_key() {
    secp_private_key_sign();
    rsa_private_key_sign(1024);
    rsa_private_key_sign(2048);
}

fn rsa_private_key_crypto(bits: usize) {
    let pk1 = PrivateKey::generate_rsa(bits).unwrap();
    let (aes_key, data) = pk1.public().gen_aeskey_and_encrypt().unwrap();
    let (buf, data2) = pk1.decrypt_aeskey_data(&data).unwrap();
    assert_eq!(buf.len(), 0);
    assert_eq!(aes_key.as_slice(), data2);
}

#[test]
fn crypto() {
    rsa_private_key_crypto(1024);
    rsa_private_key_crypto(2048);

    let pk1 = PrivateKey::generate_secp256k1().unwrap();
    let (aes_key, mut data) = pk1.public().gen_aeskey_and_encrypt().unwrap();
    println!("secp256k1 aes_key encrypt len={}", data.len());
    let (buf, data2) = pk1.decrypt_aeskey_data(&data).unwrap();
    assert_eq!(buf.len(), 0);
    assert_eq!(aes_key.as_slice(), data2);

    let encrypt_len = data.len();
    data.resize(1024, 0);
    let mut output = vec![0; 48];
    let (buf, size) = pk1.decrypt_aeskey(&data, &mut output).unwrap();
    assert_eq!(buf.len(), 1024 - encrypt_len);
    assert_eq!(aes_key.as_slice(), &output[0..size]);
}

#[test]
fn crypto_unaligned() {
    let pk1 = PrivateKey::generate_rsa(1024).unwrap();

    let origin_data = "test data".as_bytes();
    let data = pk1.public().encrypt_data(origin_data).unwrap();
    println!("len={}", data.len());

    let mut output = vec![0; 48];
    let (_buf, size) = pk1.decrypt_aeskey(&data, &mut output).unwrap();
    assert_eq!(size, origin_data.len());
    assert_eq!(&output[..origin_data.len()], origin_data);
}

#[test]
fn unsupported_rsa_sizes() {
    for bits in [0usize, 512, 1023, 4096] {
        assert!(matches!(PrivateKey::generate_rsa(bits), Err(ErrorCode::UnSupport)));
    }
    assert_eq!(PrivateKey::check_bits(2048), Ok(()));
    assert!(matches!(
        PrivateKey::generate(PrivateKeyType::Rsa, Some(100)),
        Err(ErrorCode::UnSupport)
    ));
}

#[test]
fn key_type_names() {
    assert_eq!(PrivateKeyType::Rsa.as_str(), "rsa");
    assert_eq!(PrivateKeyType::Secp256k1.as_str(), "secp256k1");
    assert_eq!(PrivateKeyType::from_str("rsa"), Ok(PrivateKeyType::Rsa));
    assert_eq!(PrivateKeyType::from_str("secp256k1"), Ok(PrivateKeyType::Secp256k1));
    assert_eq!(PrivateKeyType::from_str("dsa"), Err(ErrorCode::InvalidData));
    assert_eq!(PrivateKeyType::default(), PrivateKeyType::Rsa);
    let k = PrivateKey::generate(PrivateKeyType::Secp256k1, None).unwrap();
    assert_eq!(k.key_type(), PrivateKeyType::Secp256k1);
}

#[test]
fn secp_has_no_direct_encryption() {
    let k = PrivateKey::generate_secp256k1().unwrap();
    assert_eq!(k.public().encrypt_data(b"x"), Err(ErrorCode::NotSupport));
    assert_eq!(k.decrypt_data(b"x"), Err(ErrorCode::NotSupport));
    let mut out = [0u8; 8];
    assert_eq!(k.decrypt(b"x", &mut out), Err(ErrorCode::NotSupport));
}

#[test]
fn secp_sign_verify_and_tamper() {
    let k = PrivateKey::generate_secp256k1().unwrap();
    let msg = b"a message to sign";
    let sig = k.sign(msg).unwrap();
    assert_eq!(sig.sign().tag(), 5);
    let public = k.public();
    assert!(public.verify(msg, &sig));
    assert!(!public.verify(b"a message to sigm", &sig));
    let mut payload = [0u8; 64];
    payload.copy_from_slice(sig.as_slice());
    payload[10] ^= 1;
    let bad = Signature::new(sig.sign_time(), SignData::Ecc(payload));
    assert!(!public.verify(msg, &bad));
    let moved = Signature::new(sig.sign_time() + 1, sig.sign().clone());
    assert!(!public.verify(msg, &moved));
    let other = PrivateKey::generate_secp256k1().unwrap();
    assert!(!other.public().verify(msg, &sig));
}

#[test]
fn rsa1024_sign_verify_and_corrupt() {
    let k = PrivateKey::generate_rsa(1024).unwrap();
    let msg = b"nineteen bytes long";
    assert_eq!(msg.len(), 19);
    let sig = k.sign(msg).unwrap();
    assert_eq!(sig.as_slice().len(), 128);
    assert!(k.public().verify(msg, &sig));
    let mut payload = [0u8; 128];
    payload.copy_from_slice(sig.as_slice());
    payload[64] ^= 0x80;
    let bad = Signature::new(sig.sign_time(), SignData::Rsa1024(payload));
    assert!(!k.public().verify(msg, &bad));
    let ecc = Signature::new(sig.sign_time(), SignData::Ecc([0u8; 64]));
    assert!(!k.public().verify(msg, &ecc));
}

#[test]
fn wrapped_key_chains_with_trailing_bytes() {
    let k = PrivateKey::generate_secp256k1().unwrap();
    let (key, mut wrapped) = k.public().gen_aeskey_and_encrypt().unwrap();
    assert_eq!(key.len(), 48);
    assert_eq!(wrapped.len(), 33);
    wrapped.extend_from_slice(b"trailing");
    let (rest, key2) = k.decrypt_aeskey_data(&wrapped).unwrap();
    assert_eq!(rest, b"trailing");
    assert_eq!(key2, key);

    let r = PrivateKey::generate_rsa(1024).unwrap();
    let (key, mut wrapped) = r.public().gen_aeskey_and_encrypt().unwrap();
    assert_eq!(key.len(), 48);
    assert_eq!(wrapped.len(), 128);
    wrapped.extend_from_slice(b"more");
    let (rest, key2) = r.decrypt_aeskey_data(&wrapped).unwrap();
    assert_eq!(rest, b"more");
    assert_eq!(key2, key);
}

#[test]
fn unwrap_errors() {
    let k = PrivateKey::generate_secp256k1().unwrap();
    assert!(matches!(k.decrypt_aeskey_data(&[2u8; 32]), Err(ErrorCode::InvalidFormat)));
    let (_, wrapped) = k.public().gen_aeskey_and_encrypt().unwrap();
    let mut small = [0u8; 47];
    assert!(matches!(k.decrypt_aeskey(&wrapped, &mut small), Err(ErrorCode::InvalidParam)));
    assert_eq!(small, [0u8; 47]);
    let r = PrivateKey::generate_rsa(1024).unwrap();
    assert!(matches!(r.decrypt_aeskey_data(&[1u8; 127]), Err(ErrorCode::InvalidFormat)));
}

#[test]
fn session_key_is_secret_then_digest_prefix() {
    let shared = [3u8; 32];
    let key = session_key_from_shared(&shared);
    let digest = hash_data(&shared);
    assert_eq!(&key[..32], &shared[..]);
    assert_eq!(&key[32..], &digest.as_slice()[..16]);
}

#[test]
fn signing_digest_appends_big_endian_time() {
    let d = signing_digest(b"ab", 0x0102030405060708);
    let expected = hash_data(&[b'a', b'b', 1, 2, 3, 4, 5, 6, 7, 8]);
    assert_eq!(d, expected);
}

#[test]
fn key_codec_round_trips_and_errors() {
    let k = PrivateKey::generate_secp256k1().unwrap();
    let buf = k.to_vec().unwrap();
    assert_eq!(buf.len(), 33);
    assert_eq!(buf[0], 5);
    assert_eq!(k.raw_measure(), Ok(33));
    let (k2, rest) = PrivateKey::raw_decode(&buf).unwrap();
    assert!(k2 == k);
    assert!(rest.is_empty());
    assert_eq!(k2.to_vec().unwrap(), buf);

    let mut short = [0u8; 32];
    assert_eq!(k.raw_encode(&mut short), Err(ErrorCode::OutOfLimit));
    let mut room = [0u8; 40];
    assert_eq!(k.raw_encode(&mut room), Ok(33));
    assert_eq!(&room[..33], &buf[..]);

    for cut in 0..buf.len() {
        assert!(matches!(PrivateKey::raw_decode(&buf[..cut]), Err(ErrorCode::OutOfLimit)));
    }
    assert!(matches!(PrivateKey::raw_decode(&[9u8, 1, 2]), Err(ErrorCode::InvalidData)));
    assert!(matches!(PrivateKey::raw_decode(&[0u8, 0, 10, 1, 2]), Err(ErrorCode::OutOfLimit)));
    let mut zero = vec![5u8];
    zero.extend_from_slice(&[0u8; 32]);
    assert!(matches!(PrivateKey::raw_decode(&zero), Err(ErrorCode::CryptoError)));
    assert!(matches!(PrivateKey::raw_decode(&[0u8, 0, 2, 1, 2]), Err(ErrorCode::CryptoError)));

    let r = PrivateKey::generate_rsa(1024).unwrap();
    let rb = r.to_vec().unwrap();
    assert_eq!(rb[0], 0);
    assert_eq!(((rb[1] as usize) << 8) | rb[2] as usize, rb.len() - 3);
    let mut chained = rb.clone();
    chained.extend_from_slice(b"next");
    let (r2, rest) = PrivateKey::raw_decode(&chained).unwrap();
    assert!(r2 == r);
    assert_eq!(rest, b"next");
}

#[test]
fn public_key_codec_round_trips() {
    let k = PrivateKey::generate_secp256k1().unwrap();
    let p = k.public();
    let buf = p.to_vec().unwrap();
    assert_eq!(buf.len(), 34);
    assert_eq!(buf[0], 5);
    let (p2, rest) = PublicKey::raw_decode(&buf).unwrap();
    assert_eq!(p2, p);
    assert!(rest.is_empty());
    assert_eq!(p.key_size(), 33);

    let r = PrivateKey::generate_rsa(1024).unwrap();
    let rp = r.public();
    assert_eq!(rp.key_size(), 128);
    let rb = rp.to_vec().unwrap();
    let mut room = vec![0u8; rb.len() + 2];
    assert_eq!(rp.raw_encode(&mut room), Ok(rb.len()));
    let p3 = PublicKey::clone_from_slice(&room).unwrap();
    assert_eq!(p3, rp);
    assert_eq!(p3.to_vec().unwrap(), rb);
    let mut short = vec![0u8; rb.len() - 1];
    assert_eq!(rp.raw_encode(&mut short), Err(ErrorCode::OutOfLimit));
    assert!(matches!(PublicKey::raw_decode(&[7u8]), Err(ErrorCode::InvalidData)));
}

#[test]
fn default_rsa_size_is_1024() {
    let k = PrivateKey::generate(PrivateKeyType::Rsa, None).unwrap();
    assert_eq!(k.key_type(), PrivateKeyType::Rsa);
    assert_eq!(k.public().key_size(), 128);
    let sig = k.sign(b"x").unwrap();
    assert_eq!(sig.sign().sign_type(), "rsa1024");
}

#[test]
fn invalid_ephemeral_point_is_invalid_format() {
    let k = PrivateKey::generate_secp256k1().unwrap();
    assert!(matches!(k.decrypt_aeskey_data(&[4u8; 40]), Err(ErrorCode::InvalidFormat)));
    let mut out = [0u8; 48];
    assert!(matches!(k.decrypt_aeskey(&[4u8; 40], &mut out), Err(ErrorCode::InvalidFormat)));
}

#[test]
fn rsa_decrypt_writes_plaintext() {
    let k = PrivateKey::generate_rsa(1024).unwrap();
    let ct = k.public().encrypt_data(b"hello").unwrap();
    assert_eq!(ct.len(), 128);
    let mut out = [9u8; 8];
    assert_eq!(k.decrypt(&ct, &mut out), Ok(5));
    assert_eq!(&out, b"hello\x09\x09\x09");
    let mut small = [0u8; 4];
    assert_eq!(k.decrypt(&ct, &mut small), Err(ErrorCode::InvalidFormat));
}

#[test]
fn refused_key_material() {
    let zero = PrivateKey::Secp256k1([0u8; 32]);
    assert!(matches!(zero.sign(b"m"), Err(ErrorCode::CryptoError)));
    assert_eq!(zero.public(), PublicKey::Secp256k1([0u8; 33]));
    let empty = PrivateKey::Rsa(Vec::new());
    assert!(matches!(empty.sign(b"m"), Err(ErrorCode::CryptoError)));
    assert_eq!(empty.public(), PublicKey::Rsa(Vec::new()));
    assert!(matches!(empty.decrypt_aeskey_data(&[0u8; 200]), Err(ErrorCode::CryptoError)));
    assert!(matches!(PublicKey::raw_decode(&[5u8; 34]), Err(ErrorCode::CryptoError)));
    let sig = PrivateKey::generate_secp256k1().unwrap().sign(b"m").unwrap();
    assert!(!zero.public().verify(b"m", &sig));
}
