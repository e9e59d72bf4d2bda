use crate::codec::{append_bytes, copy_array, write_at};
use crate::error::ErrorCode;
use crate::frame::{decode_key_frame, encode_key_frame, key_frame, key_frame_decoded};
use crate::hash::{hash_data, sha256_of};
use crate::primitives::{
    ecdsa_verifies, ecies_encapsulate, ecies_sender_secret_of, random_fill, rsa_encrypt,
    rsa_private_der_ok, rsa_private_der_sound, rsa_private_size_of, rsa_public_der_of,
    rsa_public_der_ok, rsa_public_der_valid, rsa_public_size, rsa_public_size_of, rsa_verifies,
    rsa_verify, secp_generate, secp_point, secp_point_of, secp_point_ok, secp_point_valid,
    secp_scalar_ok, secp_verify,
};
use crate::private_key::{
    PrivateKey, bytes_result, signed_digest, signing_digest, SECP_PUBLIC_KEY_BYTES, SESSION_KEY_BYTES,
};
use crate::signature::{SignData, Signature, KEY_TYPE_RSA, KEY_TYPE_SECP256K1};
use vstd::prelude::*;

verus! {
/// The 48-byte session key derived from a 32-byte shared secret: the secret,
/// then the first 16 bytes of its digest.
pub open spec fn session_key_of(shared: Seq<u8>) -> Seq<u8> {
    shared + sha256_of(shared).subrange(0, 16)
}

/// Derives the session key from a shared secret.
pub fn session_key_from_shared(shared: &[u8; 32]) -> (r: Vec<u8>)
    ensures
        r@ == session_key_of(shared@),
        r@.len() == 48,
{
    let mut key: Vec<u8> = Vec::new();
    append_bytes(&mut key, shared.as_slice());
    let h = hash_data(shared.as_slice());
    let head = &h.as_slice()[0..16];
    append_bytes(&mut key, head);
    assert(key@ =~= session_key_of(shared@));
    key
}

/// Whether a signature checks over `data` under the key of family `tag` with
/// material `body`: a signature of the key's family whose payload the
/// primitive accepts for the digest of the data and the signature's time.
pub open spec fn key_verifies(tag: u8, body: Seq<u8>, data: Seq<u8>, sign: (u64, u8, Seq<u8>)) -> bool {
    if tag == KEY_TYPE_RSA {
        sign.1 != KEY_TYPE_SECP256K1 && rsa_verifies(body, signed_digest(data, sign.0), sign.2)
    } else {
        sign.1 == KEY_TYPE_SECP256K1 && ecdsa_verifies(body, signed_digest(data, sign.0), sign.2)
    }
}

/// A public key of one of the supported algorithms, held as plain bytes: an
/// RSA key as its PKCS#1 DER, a secp256k1 key as its 33-byte compressed point.
#[derive(Clone, PartialEq, Eq, Debug)]
pub enum PublicKey {
    Rsa(Vec<u8>),
    Secp256k1([u8; 33]),
}

/// Decoding the encoding of a key finds its family and material and takes
/// exactly the encoding, whatever follows it; the material decodes to the
/// same key where the algorithm accepts it.
pub proof fn lemma_public_key_round_trip(k: PublicKey, rest: Seq<u8>)
    requires
        k.encoding() is Ok,
    ensures
        key_frame_decoded(k.encoding()->Ok_0 + rest, 33) == Ok::<_, ErrorCode>(
            (k.spec_tag(), k.body(), k.encoding()->Ok_0.len()),
        ),
{
    crate::frame::lemma_key_frame_round_trip(k.spec_tag(), k.body(), 33, rest);
}

impl PublicKey {
    /// The wire tag of the key's family.
    pub open spec fn spec_tag(&self) -> u8 {
        match self {
            PublicKey::Rsa(_) => KEY_TYPE_RSA,
            PublicKey::Secp256k1(_) => KEY_TYPE_SECP256K1,
        }
    }

    /// The key material: DER for RSA, the compressed point for secp256k1.
    pub open spec fn body(&self) -> Seq<u8> {
        match self {
            PublicKey::Rsa(d) => d@,
            PublicKey::Secp256k1(p) => p@,
        }
    }

    /// The encoding, or why there is none: DER longer than a 16-bit length.
    pub open spec fn encoding(&self) -> Result<Seq<u8>, ErrorCode> {
        if self.spec_tag() == KEY_TYPE_RSA && self.body().len() > 0xffff {
            Err(ErrorCode::OutOfLimit)
        } else {
            Ok(key_frame(self.spec_tag(), self.body()))
        }
    }

    /// Whether `sign` checks over `data` under this key.
    pub open spec fn verifies(&self, data: Seq<u8>, sign: (u64, u8, Seq<u8>)) -> bool {
        key_verifies(self.spec_tag(), self.body(), data, sign)
    }

    /// The size in bytes of what the key produces: the modulus size for RSA
    /// (0 for DER the algorithm refuses), the compressed point for secp256k1.
    pub fn key_size(&self) -> (r: usize)
        ensures
            self is Secp256k1 ==> r == 33,
            self is Rsa ==> if rsa_public_der_ok(self.body()) {
                rsa_public_size_of(self.body()) == Some(r as nat)
            } else {
                r == 0
            },
    {
        match self {
            PublicKey::Rsa(d) => match rsa_public_size(d.as_slice()) {
                Some(n) => n,
                None => 0,
            },
            PublicKey::Secp256k1(_) => SECP_PUBLIC_KEY_BYTES,
        }
    }

    /// Checks `sign` over `data` and the time the signature carries. A
    /// signature of another algorithm's family is refused.
    pub fn verify(&self, data: &[u8], sign: &Signature) -> (r: bool)
        ensures
            r == self.verifies(data@, sign@),
    {
        let digest = signing_digest(data, sign.sign_time());
        match self {
            PublicKey::Rsa(d) => {
                if sign.sign().tag() == KEY_TYPE_SECP256K1 {
                    return false;
                }
                rsa_verify(d.as_slice(), digest.as_slice(), sign.as_slice())
            },
            PublicKey::Secp256k1(p) => match sign.sign() {
                SignData::Ecc(a) => secp_verify(&digest.0, a, p.as_slice()),
                _ => false,
            },
        }
    }

    /// Encrypts `data` with RSA PKCS#1 v1.5; secp256k1 keys do not encrypt
    /// directly.
    pub fn encrypt_data(&self, data: &[u8]) -> (r: Result<Vec<u8>, ErrorCode>)
        ensures
            self is Secp256k1 ==> r == Err::<Vec<u8>, ErrorCode>(ErrorCode::NotSupport),
            self is Rsa ==> match r {
                Ok(c) => rsa_public_size_of(self.body()) == Some(c@.len()),
                Err(e) => e == ErrorCode::CryptoError,
            },
            self is Rsa && !rsa_public_der_ok(self.body()) ==> r is Err,
            self is Rsa && rsa_public_der_ok(self.body()) && (rsa_public_size_of(self.body()) matches Some(
                n,
            ) && data@.len() + 11 <= n) ==> r is Ok,
            self is Rsa ==> (r matches Ok(c) ==> forall|k: PrivateKey|
                k is Rsa && rsa_private_der_sound(k.body()) && rsa_public_der_of(k.body()) == Some(
                    self.body(),
                ) ==> #[trigger] k.decrypted(c@) == Ok::<_, ErrorCode>(data@) && rsa_private_der_ok(
                    k.body(),
                ) && rsa_private_size_of(k.body()) == Some(c@.len())),
    {
        match self {
            PublicKey::Rsa(d) => match rsa_encrypt(d.as_slice(), data) {
                Some(v) => Ok(v),
                None => Err(ErrorCode::CryptoError),
            },
            PublicKey::Secp256k1(_) => Err(ErrorCode::NotSupport),
        }
    }

    /// A fresh 48-byte session key and its wrapping for this key: the RSA
    /// encryption of the key, or the 33-byte public point of a fresh ephemeral
    /// scalar whose ECIES secret with this key derives the session key.
    pub fn gen_aeskey_and_encrypt(&self) -> (r: Result<(Vec<u8>, Vec<u8>), ErrorCode>)
        ensures
            r matches Ok((key, _)) ==> key@.len() == 48,
            r matches Err(e) ==> e == ErrorCode::CryptoError,
            self is Rsa ==> (r matches Ok((_, wrapped)) ==> rsa_public_size_of(self.body()) == Some(
                wrapped@.len(),
            )),
            self is Rsa && !rsa_public_der_ok(self.body()) ==> r is Err,
            self is Rsa && rsa_public_der_ok(self.body()) && (rsa_public_size_of(self.body()) matches Some(
                n,
            ) && 59 <= n) ==> r is Ok,
            self is Rsa ==> (r matches Ok((key, wrapped)) ==> forall|k: PrivateKey, tail: Seq<u8>|
                k is Rsa && rsa_private_der_sound(k.body()) && rsa_public_der_of(k.body()) == Some(
                    self.body(),
                ) ==> #[trigger] k.unwrapped(wrapped@ + tail) == Ok::<_, ErrorCode>(
                    (wrapped@.len(), key@),
                )),
            self is Secp256k1 ==> (r is Ok <==> secp_point_ok(self.body())),
            self is Secp256k1 ==> (r matches Ok((key, wrapped)) ==> wrapped@.len() == 33 && forall|
                k: PrivateKey,
                tail: Seq<u8>,
            |
                k is Secp256k1 && secp_scalar_ok(k.body()) && secp_point_of(k.body()) == self.body()
                    ==> #[trigger] k.unwrapped(wrapped@ + tail) == Ok::<_, ErrorCode>(
                    (33nat, key@),
                )),
            self is Secp256k1 ==> (r matches Ok((key, wrapped)) ==> exists|e: Seq<u8>|
                #![trigger ecies_sender_secret_of(e, self.body())]
                secp_scalar_ok(e) && wrapped@ == secp_point_of(e) && (ecies_sender_secret_of(
                    e,
                    self.body(),
                ) matches Some(x) && key@ == session_key_of(x))),
            self is Secp256k1 && !secp_point_ok(self.body()) ==> r is Err,
    {
        match self {
            PublicKey::Rsa(_) => {
                let mut key: Vec<u8> = vec![0u8; SESSION_KEY_BYTES];
                random_fill(key.as_mut_slice());
                let wrapped = match self.encrypt_data(key.as_slice()) {
                    Ok(w) => w,
                    Err(e) => return Err(e),
                };
                proof {
                    assert forall|k: PrivateKey, tail: Seq<u8>|
                        k is Rsa && rsa_private_der_sound(k.body()) && rsa_public_der_of(k.body())
                            == Some(self.body()) implies #[trigger] k.unwrapped(wrapped@ + tail)
                        == Ok::<_, ErrorCode>((wrapped@.len(), key@)) by {
                        assert(k.decrypted(wrapped@) == Ok::<_, ErrorCode>(key@));
                        let input = wrapped@ + tail;
                        assert(input.subrange(0, wrapped@.len() as int) =~= wrapped@);
                    }
                }
                Ok((key, wrapped))
            },
            PublicKey::Secp256k1(p) => {
                let ephemeral = secp_generate();
                let point = match secp_point(&ephemeral) {
                    Some(x) => x,
                    None => return Err(ErrorCode::CryptoError),
                };
                let shared = match ecies_encapsulate(&ephemeral, p.as_slice()) {
                    Some(s) => s,
                    None => return Err(ErrorCode::CryptoError),
                };
                let key = session_key_from_shared(&shared);
                let mut wrapped: Vec<u8> = Vec::new();
                append_bytes(&mut wrapped, point.as_slice());
                proof {
                    assert forall|k: PrivateKey, tail: Seq<u8>|
                        k is Secp256k1 && secp_scalar_ok(k.body()) && secp_point_of(k.body())
                            == self.body() implies #[trigger] k.unwrapped(wrapped@ + tail)
                        == Ok::<_, ErrorCode>((33nat, key@)) by {
                        let input = wrapped@ + tail;
                        assert(input.subrange(0, 33) =~= wrapped@);
                        assert(p@ == secp_point_of(k.body()));
                    }
                }
                Ok((key, wrapped))
            },
        }
    }

    /// The encoding: the key's frame with the PKCS#1 DER body for RSA, the
    /// 33-byte compressed point for secp256k1.
    pub fn to_vec(&self) -> (r: Result<Vec<u8>, ErrorCode>)
        ensures
            bytes_result(r) == self.encoding(),
    {
        match self {
            PublicKey::Rsa(d) => {
                if d.len() > 0xffff {
                    return Err(ErrorCode::OutOfLimit);
                }
                Ok(encode_key_frame(KEY_TYPE_RSA, d.as_slice()))
            },
            PublicKey::Secp256k1(p) => Ok(encode_key_frame(KEY_TYPE_SECP256K1, p.as_slice())),
        }
    }

    /// The size of the encoding.
    pub fn raw_measure(&self) -> (r: Result<usize, ErrorCode>)
        ensures
            match self.encoding() {
                Ok(v) => r == Ok::<usize, ErrorCode>(v.len() as usize),
                Err(e) => r == Err::<usize, ErrorCode>(e),
            },
            self is Secp256k1 ==> r == Ok::<usize, ErrorCode>(34usize),
    {
        match self.to_vec() {
            Ok(v) => Ok(v.len()),
            Err(e) => Err(e),
        }
    }

    /// Writes the encoding at the front of `buf` and returns its size; the
    /// rest of `buf` stays. A buffer shorter than the encoding gives
    /// `OutOfLimit`.
    pub fn raw_encode(&self, buf: &mut [u8]) -> (r: Result<usize, ErrorCode>)
        ensures
            match self.encoding() {
                Err(e) => r == Err::<usize, ErrorCode>(e),
                Ok(v) => if old(buf)@.len() < v.len() {
                    r == Err::<usize, ErrorCode>(ErrorCode::OutOfLimit)
                } else {
                    r == Ok::<usize, ErrorCode>(v.len() as usize) && final(buf)@ == v + old(
                        buf,
                    )@.subrange(v.len() as int, old(buf)@.len() as int)
                },
            },
            r is Err ==> final(buf)@ == old(buf)@,
    {
        let v = match self.to_vec() {
            Ok(v) => v,
            Err(e) => return Err(e),
        };
        if buf.len() < v.len() {
            return Err(ErrorCode::OutOfLimit);
        }
        write_at(buf, 0, v.as_slice());
        assert(old(buf)@.subrange(0, 0) + v@ =~= v@);
        Ok(v.len())
    }

    /// Reads a key from the front of `buf` and returns it with the bytes that
    /// follow. A frame that is cut short gives `OutOfLimit`, an unknown tag
    /// `InvalidData`, key material the algorithm refuses `CryptoError`.
    pub fn raw_decode(buf: &[u8]) -> (r: Result<(PublicKey, &[u8]), ErrorCode>)
        ensures
            match key_frame_decoded(buf@, 33) {
                Err(e) => r matches Err(e2) && e2 == e,
                Ok((t, body, n)) => if (t == KEY_TYPE_RSA && rsa_public_der_ok(body)) || (t
                    == KEY_TYPE_SECP256K1 && secp_point_ok(body)) {
                    r matches Ok((k, rest)) && k.spec_tag() == t && k.body() == body && rest@
                        == buf@.subrange(n as int, buf@.len() as int)
                } else {
                    r matches Err(e2) && e2 == ErrorCode::CryptoError
                },
            },
    {
        let (tag, body, rest) = match decode_key_frame(buf, SECP_PUBLIC_KEY_BYTES) {
            Ok(x) => x,
            Err(e) => return Err(e),
        };
        if tag == KEY_TYPE_RSA {
            if rsa_public_der_valid(body) {
                let mut d: Vec<u8> = Vec::new();
                append_bytes(&mut d, body);
                Ok((PublicKey::Rsa(d), rest))
            } else {
                Err(ErrorCode::CryptoError)
            }
        } else {
            if secp_point_valid(body) {
                Ok((PublicKey::Secp256k1(copy_array::<33>(body, 0)), rest))
            } else {
                Err(ErrorCode::CryptoError)
            }
        }
    }

    /// Decodes a key from the front of `buf`, ignoring what follows.
    pub fn clone_from_slice(buf: &[u8]) -> (r: Result<PublicKey, ErrorCode>)
        ensures
            match key_frame_decoded(buf@, 33) {
                Err(e) => r == Err::<PublicKey, ErrorCode>(e),
                Ok((t, body, n)) => if (t == KEY_TYPE_RSA && rsa_public_der_ok(body)) || (t
                    == KEY_TYPE_SECP256K1 && secp_point_ok(body)) {
                    r matches Ok(k) && k.spec_tag() == t && k.body() == body
                } else {
                    r == Err::<PublicKey, ErrorCode>(ErrorCode::CryptoError)
                },
            },
    {
        match PublicKey::raw_decode(buf) {
            Ok((k, _)) => Ok(k),
            Err(e) => Err(e),
        }
    }
}

} // verus!
