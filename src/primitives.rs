//! The outside cryptographic primitives this library builds on, each behind one
//! small trusted function. Keys cross this boundary as plain bytes: RSA keys as
//! PKCS#1 DER, secp256k1 secret keys as the 32-byte scalar and public keys as
//! the 33-byte compressed point.
use libsecp256k1::{PublicKey as SecpPublicKey, SecretKey as SecpSecretKey};
use rand::RngCore;
use rsa::pkcs1::{DecodeRsaPrivateKey, DecodeRsaPublicKey, EncodeRsaPrivateKey, EncodeRsaPublicKey};
use rsa::traits::PublicKeyParts;
use rsa::{RsaPrivateKey, RsaPublicKey};
use vstd::prelude::*;

verus! {

/// The number of four 64-bit limbs, most significant first.
pub open spec fn limbs(a: int, b: int, c: int, d: int) -> int {
    let w = 0x1_0000_0000_0000_0000int;
    ((a * w + b) * w + c) * w + d
}

/// The order of the secp256k1 group.
pub open spec fn secp_order() -> int {
    limbs(0xFFFFFFFFFFFFFFFF, 0xFFFFFFFFFFFFFFFE, 0xBAAEDCE6AF48A03B, 0xBFD25E8CD0364141)
}

/// The prime of the secp256k1 field.
pub open spec fn secp_prime() -> int {
    limbs(0xFFFFFFFFFFFFFFFF, 0xFFFFFFFFFFFFFFFF, 0xFFFFFFFFFFFFFFFF, 0xFFFFFFFEFFFFFC2F)
}

/// The number that big-endian bytes spell.
pub open spec fn be_nat(b: Seq<u8>) -> nat
    decreases b.len(),
{
    if b.len() == 0 {
        0
    } else {
        be_nat(b.drop_last()) * 256 + b.last() as nat
    }
}

/// A valid secret scalar: 32 bytes spelling a number in `1 .. order`.
pub open spec fn secp_scalar_ok(b: Seq<u8>) -> bool {
    b.len() == 32 && 0 < be_nat(b) < secp_order()
}

/// A valid compressed point: tag 2 or 3, then an x below the field prime for
/// which `x^3 + 7` has a square root.
pub open spec fn secp_point_ok(b: Seq<u8>) -> bool {
    &&& b.len() == 33
    &&& (b[0] == 2 || b[0] == 3)
    &&& be_nat(b.subrange(1, 33)) < secp_prime()
    &&& exists|y: int|
        0 <= y < secp_prime() && #[trigger] ((y * y) % secp_prime()) == ({
            let x = be_nat(b.subrange(1, 33)) as int;
            (x * x * x + 7) % secp_prime()
        })
}

/// Whether DER bytes hold a PKCS#1 RSA private key the rsa crate accepts.
pub uninterp spec fn rsa_private_der_ok(der: Seq<u8>) -> bool;

/// Whether DER bytes hold an RSA private key made by the rsa crate's key
/// generation: its factors are primes, so its operations invert each other.
pub uninterp spec fn rsa_private_der_sound(der: Seq<u8>) -> bool;

/// Whether DER bytes hold a PKCS#1 RSA public key the rsa crate accepts.
pub uninterp spec fn rsa_public_der_ok(der: Seq<u8>) -> bool;

/// The modulus size in bytes of an RSA private key, given as DER.
pub uninterp spec fn rsa_private_size_of(der: Seq<u8>) -> Option<nat>;

/// The modulus size in bytes of an RSA public key, given as DER.
pub uninterp spec fn rsa_public_size_of(der: Seq<u8>) -> Option<nat>;

/// The PKCS#1 DER of the public half of an RSA private key given as DER.
pub uninterp spec fn rsa_public_der_of(der: Seq<u8>) -> Option<Seq<u8>>;

/// The PKCS#1 v1.5 signature of a SHA-256 digest by an RSA key given as DER.
pub uninterp spec fn rsa_signature_of(der: Seq<u8>, digest: Seq<u8>) -> Option<Seq<u8>>;

/// Whether a PKCS#1 v1.5 signature of a SHA-256 digest checks under an RSA
/// public key given as DER.
pub uninterp spec fn rsa_verifies(der: Seq<u8>, digest: Seq<u8>, sig: Seq<u8>) -> bool;

/// The PKCS#1 v1.5 decryption of a ciphertext by an RSA key given as DER.
pub uninterp spec fn rsa_plaintext_of(der: Seq<u8>, ct: Seq<u8>) -> Option<Seq<u8>>;

/// The compressed public point of a secret scalar.
pub uninterp spec fn secp_point_of(scalar: Seq<u8>) -> Seq<u8>;

/// The compact ECDSA signature of a 32-byte message by a secret scalar.
pub uninterp spec fn ecdsa_signature_of(scalar: Seq<u8>, msg: Seq<u8>) -> Seq<u8>;

/// Whether a compact ECDSA signature of a 32-byte message checks under a
/// compressed point.
pub uninterp spec fn ecdsa_verifies(point: Seq<u8>, msg: Seq<u8>, sig: Seq<u8>) -> bool;

/// The ECIES secret that a sender with the secret scalar shares with the peer
/// at the compressed point.
pub uninterp spec fn ecies_sender_secret_of(scalar: Seq<u8>, peer: Seq<u8>) -> Option<Seq<u8>>;

/// The ECIES secret that a receiver with the secret scalar shares with the
/// sender's ephemeral compressed point.
pub uninterp spec fn ecies_receiver_secret_of(point: Seq<u8>, scalar: Seq<u8>) -> Option<Seq<u8>>;

/// Relies on `rand::thread_rng` and `RngCore::fill_bytes`: fills `buf` with
/// random bytes; nothing is promised of their values.
#[verifier::external_body]
pub(crate) fn random_fill(buf: &mut [u8])
    ensures
        final(buf)@.len() == old(buf)@.len(),
{
    rand::thread_rng().fill_bytes(buf)
}

/// Relies on `rsa::RsaPrivateKey::new` with `rand::thread_rng`, then
/// `EncodeRsaPrivateKey::to_pkcs1_der`: a fresh key as DER, whose modulus has
/// exactly `bits` bits (key generation retries until it does), which
/// `from_pkcs1_der` accepts back, and whose public half decodes (it is below
/// the 4096-bit limit on public keys).
#[verifier::external_body]
pub(crate) fn rsa_generate_der(bits: usize) -> (r: Option<Vec<u8>>)
    requires
        bits == 1024 || bits == 2048 || bits == 3072,
    ensures
        r matches Some(d) ==> rsa_private_der_ok(d@) && rsa_private_der_sound(d@)
            && rsa_private_size_of(d@) == Some((bits / 8) as nat) && (rsa_public_der_of(
            d@,
        ) matches Some(p) && rsa_public_der_ok(p)),
{
    match RsaPrivateKey::new(&mut rand::thread_rng(), bits) {
        Ok(k) => match k.to_pkcs1_der() {
            Ok(d) => Some(d.as_bytes().to_vec()),
            Err(_) => None,
        },
        Err(_) => None,
    }
}

/// Relies on `DecodeRsaPrivateKey::from_pkcs1_der`: whether it accepts `der`.
#[verifier::external_body]
pub(crate) fn rsa_private_der_valid(der: &[u8]) -> (r: bool)
    ensures
        r == rsa_private_der_ok(der@),
{
    RsaPrivateKey::from_pkcs1_der(der).is_ok()
}

/// Relies on `DecodeRsaPublicKey::from_pkcs1_der`: whether it accepts `der`.
#[verifier::external_body]
pub(crate) fn rsa_public_der_valid(der: &[u8]) -> (r: bool)
    ensures
        r == rsa_public_der_ok(der@),
{
    RsaPublicKey::from_pkcs1_der(der).is_ok()
}

/// Relies on `from_pkcs1_der` and `PublicKeyParts::size`: the modulus size in
/// bytes, which is also the size of every signature and ciphertext of the key.
#[verifier::external_body]
pub(crate) fn rsa_private_size(der: &[u8]) -> (r: Option<usize>)
    ensures
        r is Some <==> rsa_private_der_ok(der@),
        r matches Some(n) ==> rsa_private_size_of(der@) == Some(n as nat),
{
    match RsaPrivateKey::from_pkcs1_der(der) {
        Ok(k) => Some(k.size()),
        Err(_) => None,
    }
}

/// Relies on `from_pkcs1_der` and `PublicKeyParts::size` for public keys.
#[verifier::external_body]
pub(crate) fn rsa_public_size(der: &[u8]) -> (r: Option<usize>)
    ensures
        r is Some <==> rsa_public_der_ok(der@),
        r matches Some(n) ==> rsa_public_size_of(der@) == Some(n as nat),
{
    match RsaPublicKey::from_pkcs1_der(der) {
        Ok(k) => Some(k.size()),
        Err(_) => None,
    }
}

/// Relies on `from_pkcs1_der`, `RsaPrivateKey::to_public_key` and
/// `EncodeRsaPublicKey::to_pkcs1_der`: the public half as DER.
#[verifier::external_body]
pub(crate) fn rsa_public_der(der: &[u8]) -> (r: Option<Vec<u8>>)
    ensures
        r matches Some(v) ==> rsa_public_der_of(der@) == Some(v@),
        r is None ==> rsa_public_der_of(der@) is None,
        !rsa_private_der_ok(der@) ==> r is None,
{
    match RsaPrivateKey::from_pkcs1_der(der) {
        Ok(k) => match k.to_public_key().to_pkcs1_der() {
            Ok(d) => Some(d.as_bytes().to_vec()),
            Err(_) => None,
        },
        Err(_) => None,
    }
}

/// Relies on `from_pkcs1_der` and `RsaPrivateKey::sign` with PKCS#1 v1.5
/// padding for a SHA-256 digest; a signature has the modulus size, and
/// `RsaPublicKey::verify` accepts it under the key's public half wherever
/// that half decodes (moduli over 4096 bits do not). With a generated key of
/// at least 62 bytes (room for the SHA-256 digest info and padding) it does
/// not fail.
#[verifier::external_body]
pub(crate) fn rsa_sign(der: &[u8], digest: &[u8]) -> (r: Option<Vec<u8>>)
    ensures
        r matches Some(s) ==> rsa_signature_of(der@, digest@) == Some(s@)
            && rsa_private_size_of(der@) == Some(s@.len()),
        r is None ==> rsa_signature_of(der@, digest@) is None,
        !rsa_private_der_ok(der@) ==> r is None,
        r matches Some(s) ==> (rsa_public_der_of(der@) matches Some(p) ==> (rsa_public_der_ok(p)
            ==> rsa_verifies(p, digest@, s@))),
        rsa_private_der_sound(der@) && digest@.len() == 32 && (rsa_private_size_of(der@) matches Some(
            n,
        ) && n >= 62) ==> r is Some,
{
    match RsaPrivateKey::from_pkcs1_der(der) {
        Ok(k) => k.sign(rsa::Pkcs1v15Sign::new::<sha2::Sha256>(), digest).ok(),
        Err(_) => None,
    }
}

/// Relies on `from_pkcs1_der` and `RsaPublicKey::verify` with PKCS#1 v1.5
/// padding for a SHA-256 digest: true when it accepts the signature.
#[verifier::external_body]
pub(crate) fn rsa_verify(der: &[u8], digest: &[u8], sig: &[u8]) -> (r: bool)
    ensures
        r == rsa_verifies(der@, digest@, sig@),
        !rsa_public_der_ok(der@) ==> !r,
{
    match RsaPublicKey::from_pkcs1_der(der) {
        Ok(k) => k.verify(rsa::Pkcs1v15Sign::new::<sha2::Sha256>(), digest, sig).is_ok(),
        Err(_) => false,
    }
}

/// Relies on `from_pkcs1_der` and `RsaPublicKey::encrypt` with PKCS#1 v1.5
/// padding and `rand::thread_rng`; a ciphertext has the modulus size, and the
/// only refusal of a decodable key is a message longer than the size less 11.
/// A generated private key whose public half this is decrypts it back.
#[verifier::external_body]
pub(crate) fn rsa_encrypt(der: &[u8], msg: &[u8]) -> (r: Option<Vec<u8>>)
    ensures
        r matches Some(c) ==> rsa_public_size_of(der@) == Some(c@.len()),
        !rsa_public_der_ok(der@) ==> r is None,
        rsa_public_der_ok(der@) && (rsa_public_size_of(der@) matches Some(n) && msg@.len() + 11
            <= n) ==> r is Some,
        r matches Some(c) ==> forall|d: Seq<u8>|
            rsa_private_der_sound(d) && #[trigger] rsa_public_der_of(d) == Some(der@)
                ==> rsa_private_der_ok(d) && rsa_private_size_of(d) == Some(c@.len())
                && rsa_plaintext_of(d, c@) == Some(msg@),
{
    match RsaPublicKey::from_pkcs1_der(der) {
        Ok(k) => k.encrypt(&mut rand::thread_rng(), rsa::Pkcs1v15Encrypt, msg).ok(),
        Err(_) => None,
    }
}

/// Relies on `from_pkcs1_der` and `RsaPrivateKey::decrypt` with PKCS#1 v1.5
/// padding.
#[verifier::external_body]
pub(crate) fn rsa_decrypt(der: &[u8], ct: &[u8]) -> (r: Option<Vec<u8>>)
    ensures
        r matches Some(p) ==> rsa_plaintext_of(der@, ct@) == Some(p@),
        r is None ==> rsa_plaintext_of(der@, ct@) is None,
        !rsa_private_der_ok(der@) ==> r is None,
{
    match RsaPrivateKey::from_pkcs1_der(der) {
        Ok(k) => k.decrypt(rsa::Pkcs1v15Encrypt, ct).ok(),
        Err(_) => None,
    }
}

/// Relies on `libsecp256k1::SecretKey::random` with `rand::thread_rng` and
/// `SecretKey::serialize`: a fresh valid scalar.
#[verifier::external_body]
pub(crate) fn secp_generate() -> (r: [u8; 32])
    ensures
        secp_scalar_ok(r@),
{
    SecpSecretKey::random(&mut rand::thread_rng()).serialize()
}

/// Relies on `libsecp256k1::SecretKey::parse_slice`, which accepts exactly 32
/// bytes of a scalar in `1 .. order`.
#[verifier::external_body]
pub(crate) fn secp_scalar_valid(b: &[u8]) -> (r: bool)
    ensures
        r == secp_scalar_ok(b@),
{
    SecpSecretKey::parse_slice(b).is_ok()
}

/// Relies on `libsecp256k1::PublicKey::parse_slice` for the compressed form,
/// which accepts exactly the valid compressed points.
#[verifier::external_body]
pub(crate) fn secp_point_valid(b: &[u8]) -> (r: bool)
    ensures
        r == secp_point_ok(b@),
{
    SecpPublicKey::parse_slice(b, Some(libsecp256k1::PublicKeyFormat::Compressed)).is_ok()
}

/// Relies on `SecretKey::parse`, `PublicKey::from_secret_key` and
/// `serialize_compressed`: the public point of a valid scalar.
#[verifier::external_body]
pub(crate) fn secp_point(scalar: &[u8; 32]) -> (r: Option<[u8; 33]>)
    ensures
        r is Some <==> secp_scalar_ok(scalar@),
        r matches Some(p) ==> p@ == secp_point_of(scalar@) && secp_point_ok(p@),
{
    match SecpSecretKey::parse(scalar) {
        Ok(k) => Some(SecpPublicKey::from_secret_key(&k).serialize_compressed()),
        Err(_) => None,
    }
}

/// Relies on `SecretKey::parse` and `libsecp256k1::sign` (deterministic,
/// RFC 6979): the compact `r || s` signature of the 32-byte message, which
/// `libsecp256k1::verify` accepts under the scalar's public point.
#[verifier::external_body]
pub(crate) fn secp_sign(msg: &[u8; 32], scalar: &[u8; 32]) -> (r: Option<[u8; 64]>)
    ensures
        r is Some <==> secp_scalar_ok(scalar@),
        r matches Some(s) ==> s@ == ecdsa_signature_of(scalar@, msg@) && ecdsa_verifies(
            secp_point_of(scalar@),
            msg@,
            s@,
        ),
{
    match SecpSecretKey::parse(scalar) {
        Ok(k) => Some(libsecp256k1::sign(&libsecp256k1::Message::parse(msg), &k).0.serialize()),
        Err(_) => None,
    }
}

/// Relies on `PublicKey::parse_slice`, `Signature::parse_standard` and
/// `libsecp256k1::verify`: true when the signature checks.
#[verifier::external_body]
pub(crate) fn secp_verify(msg: &[u8; 32], sig: &[u8; 64], point: &[u8]) -> (r: bool)
    ensures
        r == ecdsa_verifies(point@, msg@, sig@),
        !secp_point_ok(point@) ==> !r,
{
    match (
        SecpPublicKey::parse_slice(point, Some(libsecp256k1::PublicKeyFormat::Compressed)),
        libsecp256k1::Signature::parse_standard(sig),
    ) {
        (Ok(k), Ok(s)) => libsecp256k1::verify(&libsecp256k1::Message::parse(msg), &s, &k),
        _ => false,
    }
}

/// Relies on `ecies::SecretKey::parse_slice`, `ecies::PublicKey::parse_slice`
/// and `ecies::utils::encapsulate`: the secret a sender with `scalar` shares
/// with `peer`. It fails on no valid scalar and point (the product of a point
/// and a nonzero scalar is never the identity), and a receiver with the
/// peer's scalar finds the same secret from the sender's public point.
#[verifier::external_body]
pub(crate) fn ecies_encapsulate(scalar: &[u8; 32], peer: &[u8]) -> (r: Option<[u8; 32]>)
    requires
        peer@.len() == 33,
    ensures
        r matches Some(s) ==> ecies_sender_secret_of(scalar@, peer@) == Some(s@),
        r is None ==> ecies_sender_secret_of(scalar@, peer@) is None,
        !(secp_scalar_ok(scalar@) && secp_point_ok(peer@)) ==> r is None,
        secp_scalar_ok(scalar@) && secp_point_ok(peer@) ==> r is Some,
        r matches Some(x) ==> forall|k: Seq<u8>|
            secp_scalar_ok(k) && peer@ == #[trigger] secp_point_of(k) ==> ecies_receiver_secret_of(
                secp_point_of(scalar@),
                k,
            ) == Some(x@),
{
    match (ecies::SecretKey::parse_slice(scalar), ecies::PublicKey::parse_slice(peer, None)) {
        (Ok(sk), Ok(pk)) => ecies::utils::encapsulate(&sk, &pk, false).ok(),
        _ => None,
    }
}

/// Relies on `ecies::PublicKey::parse_slice`, `ecies::SecretKey::parse_slice`
/// and `ecies::utils::decapsulate`: the secret a receiver with `scalar` shares
/// with the sender's ephemeral `point`; it fails on no valid point and scalar.
#[verifier::external_body]
pub(crate) fn ecies_decapsulate(point: &[u8], scalar: &[u8; 32]) -> (r: Option<[u8; 32]>)
    requires
        point@.len() == 33,
    ensures
        r matches Some(s) ==> ecies_receiver_secret_of(point@, scalar@) == Some(s@),
        r is None ==> ecies_receiver_secret_of(point@, scalar@) is None,
        !(secp_scalar_ok(scalar@) && secp_point_ok(point@)) ==> r is None,
        secp_scalar_ok(scalar@) && secp_point_ok(point@) ==> r is Some,
{
    match (ecies::PublicKey::parse_slice(point, None), ecies::SecretKey::parse_slice(scalar)) {
        (Ok(pk), Ok(sk)) => ecies::utils::decapsulate(&pk, &sk, false).ok(),
        _ => None,
    }
}

} // verus!
