use crate::codec::{append_bytes, be64, be_u64_bytes, copy_array, write_at};
use crate::error::ErrorCode;
use crate::frame::{decode_key_frame, encode_key_frame, key_frame, key_frame_decoded};
use crate::hash::{hash_data, sha256_of, HashValue};
use crate::primitives::{
    ecies_decapsulate, ecies_receiver_secret_of, ecdsa_signature_of, rsa_decrypt,
    rsa_generate_der, rsa_plaintext_of, rsa_private_der_ok, rsa_private_der_valid,
    rsa_private_size, rsa_private_size_of, rsa_public_der, rsa_public_der_of, rsa_public_der_ok,
    rsa_private_der_sound, rsa_sign,
    rsa_signature_of, secp_generate, secp_point, secp_point_of, secp_point_ok, secp_point_valid,
    secp_scalar_ok, secp_scalar_valid, secp_sign,
};
use crate::public_key::{key_verifies, session_key_from_shared, session_key_of, PublicKey};
use crate::signature::{time_now, SignData, Signature, KEY_TYPE_RSA, KEY_TYPE_SECP256K1};
use vstd::prelude::*;
use vstd::string::StringSliceAdditionalSpecFns;
use vstd::utf8::encode_utf8_decode_utf8;

verus! {
/// The RSA modulus size used when none is given.
pub const DEFAULT_RSA_BITS: usize = 1024;

/// The size of a secp256k1 secret key on the wire.
pub const SECP_SECRET_KEY_BYTES: usize = 32;

/// The size of a compressed secp256k1 public key.
pub const SECP_PUBLIC_KEY_BYTES: usize = 33;

/// The size of a session key.
pub const SESSION_KEY_BYTES: usize = 48;

/// The family of a private key.
#[derive(Debug, Clone, Copy, PartialEq, Eq, Structural)]
pub enum PrivateKeyType {
    Rsa,
    Secp256k1,
}

impl PrivateKeyType {
    /// The family's name.
    pub fn as_str(&self) -> (r: &str)
        ensures
            r@ == match self {
                PrivateKeyType::Rsa => "rsa"@,
                PrivateKeyType::Secp256k1 => "secp256k1"@,
            },
    {
        match *self {
            PrivateKeyType::Rsa => "rsa",
            PrivateKeyType::Secp256k1 => "secp256k1",
        }
    }

    /// Parses a family's name.
    pub fn from_str(s: &str) -> (r: Result<PrivateKeyType, ErrorCode>)
        ensures
            s@ == "rsa"@ ==> r == Ok::<_, ErrorCode>(PrivateKeyType::Rsa),
            s@ == "secp256k1"@ ==> r == Ok::<_, ErrorCode>(PrivateKeyType::Secp256k1),
            s@ != "rsa"@ && s@ != "secp256k1"@ ==> r == Err::<PrivateKeyType, ErrorCode>(
                ErrorCode::InvalidData,
            ),
    {
        proof {
            reveal_strlit("rsa");
            reveal_strlit("secp256k1");
            assert("rsa"@.len() == 3 && "secp256k1"@.len() == 9);
        }
        if str_eq(s, "rsa") {
            Ok(PrivateKeyType::Rsa)
        } else if str_eq(s, "secp256k1") {
            Ok(PrivateKeyType::Secp256k1)
        } else {
            Err(ErrorCode::InvalidData)
        }
    }
}

impl Default for PrivateKeyType {
    fn default() -> (r: PrivateKeyType)
        ensures
            r == PrivateKeyType::Rsa,
    {
        PrivateKeyType::Rsa
    }
}

/// Whether two byte strings are equal.
fn bytes_eq(a: &[u8], b: &[u8]) -> (r: bool)
    ensures
        r == (a@ == b@),
{
    if a.len() != b.len() {
        return false;
    }
    let mut i: usize = 0;
    while i < a.len()
        invariant
            i <= a@.len() == b@.len(),
            a@.subrange(0, i as int) == b@.subrange(0, i as int),
        decreases a@.len() - i,
    {
        if a[i] != b[i] {
            assert(a@[i as int] != b@[i as int]);
            return false;
        }
        assert(a@.subrange(0, i + 1) =~= a@.subrange(0, i as int).push(a@[i as int]));
        assert(b@.subrange(0, i + 1) =~= b@.subrange(0, i as int).push(b@[i as int]));
        i = i + 1;
    }
    assert(a@ =~= a@.subrange(0, i as int));
    assert(b@ =~= b@.subrange(0, i as int));
    true
}

/// Whether two strings hold the same characters.
fn str_eq(a: &str, b: &str) -> (r: bool)
    ensures
        r == (a@ == b@),
{
    let r = bytes_eq(a.as_bytes(), b.as_bytes());
    proof {
        encode_utf8_decode_utf8(a@);
        encode_utf8_decode_utf8(b@);
    }
    r
}

/// The digest that a signature made at `time` over `data` signs.
pub open spec fn signed_digest(data: Seq<u8>, time: u64) -> Seq<u8> {
    sha256_of(signing_input(data, time))
}

/// The bytes that a signature made at `time` signs: the message, then the
/// eight big-endian bytes of the time.
pub open spec fn signing_input(data: Seq<u8>, time: u64) -> Seq<u8> {
    data + be64(time)
}

/// The digest that a signature made at `time` signs.
pub fn signing_digest(data: &[u8], time: u64) -> (r: HashValue)
    ensures
        r@ == sha256_of(signing_input(data@, time)),
{
    let mut input: Vec<u8> = Vec::new();
    append_bytes(&mut input, data);
    let t = be_u64_bytes(time);
    append_bytes(&mut input, t.as_slice());
    hash_data(input.as_slice())
}

/// Splits a wrapped-key block of `size` bytes off the front of `input`.
pub fn split_wrapped(input: &[u8], size: usize) -> (r: Result<(&[u8], &[u8]), ErrorCode>)
    ensures
        input@.len() < size <==> r is Err,
        r is Err ==> r == Err::<(&[u8], &[u8]), ErrorCode>(ErrorCode::InvalidFormat),
        r matches Ok((block, rest)) ==> block@ == input@.subrange(0, size as int) && rest@
            == input@.subrange(size as int, input@.len() as int),
{
    if input.len() < size {
        return Err(ErrorCode::InvalidFormat);
    }
    Ok((&input[0..size], &input[size..input.len()]))
}

/// A private key of one of the supported algorithms, held as plain bytes: an
/// RSA key as its PKCS#1 DER, a secp256k1 key as its 32-byte scalar. It has
/// no `Debug`, so that its secret never reaches a log.
#[derive(Clone, PartialEq, Eq)]
pub enum PrivateKey {
    Rsa(Vec<u8>),
    Secp256k1([u8; 32]),
}

/// Option of bytes as a result, with `e` for `None`.
pub open spec fn or_error(o: Option<Seq<u8>>, e: ErrorCode) -> Result<Seq<u8>, ErrorCode> {
    match o {
        Some(v) => Ok(v),
        None => Err(e),
    }
}

/// Bytes of a result, viewed.
pub open spec fn bytes_result(r: Result<Vec<u8>, ErrorCode>) -> Result<Seq<u8>, ErrorCode> {
    match r {
        Ok(v) => Ok(v@),
        Err(e) => Err(e),
    }
}

/// Decoding the encoding of a key finds its family and material and takes
/// exactly the encoding, whatever follows it; the material decodes to the
/// same key where the algorithm accepts it.
pub proof fn lemma_private_key_round_trip(k: PrivateKey, rest: Seq<u8>)
    requires
        k.encoding() is Ok,
    ensures
        key_frame_decoded(k.encoding()->Ok_0 + rest, 32) == Ok::<_, ErrorCode>(
            (k.spec_tag(), k.body(), k.encoding()->Ok_0.len()),
        ),
{
    crate::frame::lemma_key_frame_round_trip(k.spec_tag(), k.body(), 32, rest);
}

impl PrivateKey {
    /// The wire tag of the key's family.
    pub open spec fn spec_tag(&self) -> u8 {
        match self {
            PrivateKey::Rsa(_) => KEY_TYPE_RSA,
            PrivateKey::Secp256k1(_) => KEY_TYPE_SECP256K1,
        }
    }

    /// The key material: DER for RSA, the scalar for secp256k1.
    pub open spec fn body(&self) -> Seq<u8> {
        match self {
            PrivateKey::Rsa(d) => d@,
            PrivateKey::Secp256k1(s) => s@,
        }
    }

    /// The material of the matching public key; empty or zero where the
    /// algorithm refuses this key's material.
    pub open spec fn public_body(&self) -> Seq<u8> {
        match self {
            PrivateKey::Rsa(d) => match rsa_public_der_of(d@) {
                Some(v) => v,
                None => Seq::<u8>::empty(),
            },
            PrivateKey::Secp256k1(s) => if secp_scalar_ok(s@) {
                secp_point_of(s@)
            } else {
                Seq::new(33, |i: int| 0u8)
            },
        }
    }

    /// The encoding, or why there is none: DER longer than a 16-bit length.
    pub open spec fn encoding(&self) -> Result<Seq<u8>, ErrorCode> {
        if self.spec_tag() == KEY_TYPE_RSA && self.body().len() > 0xffff {
            Err(ErrorCode::OutOfLimit)
        } else {
            Ok(key_frame(self.spec_tag(), self.body()))
        }
    }

    /// What `decrypt_data` gives.
    pub open spec fn decrypted(&self, input: Seq<u8>) -> Result<Seq<u8>, ErrorCode> {
        match self {
            PrivateKey::Rsa(d) => or_error(rsa_plaintext_of(d@, input), ErrorCode::CryptoError),
            PrivateKey::Secp256k1(_) => Err(ErrorCode::NotSupport),
        }
    }

    /// What unwrapping a session key from the front of `input` gives: the
    /// number of bytes taken and the key.
    pub open spec fn unwrapped(&self, input: Seq<u8>) -> Result<(nat, Seq<u8>), ErrorCode> {
        match self {
            PrivateKey::Rsa(d) => if !rsa_private_der_ok(d@) {
                Err(ErrorCode::CryptoError)
            } else {
                let n = rsa_private_size_of(d@)->0;
                if input.len() < n {
                    Err(ErrorCode::InvalidFormat)
                } else {
                    match rsa_plaintext_of(d@, input.subrange(0, n as int)) {
                        Some(p) => Ok((n, p)),
                        None => Err(ErrorCode::CryptoError),
                    }
                }
            },
            PrivateKey::Secp256k1(s) => if input.len() < 33 || !secp_point_ok(
                input.subrange(0, 33),
            ) {
                Err(ErrorCode::InvalidFormat)
            } else {
                match ecies_receiver_secret_of(input.subrange(0, 33), s@) {
                    Some(x) => Ok((33nat, session_key_of(x))),
                    None => Err(ErrorCode::CryptoError),
                }
            },
        }
    }

    /// The family of the key.
    pub fn key_type(&self) -> (r: PrivateKeyType)
        ensures
            r == (match self {
                PrivateKey::Rsa(_) => PrivateKeyType::Rsa,
                PrivateKey::Secp256k1(_) => PrivateKeyType::Secp256k1,
            }),
    {
        match self {
            PrivateKey::Rsa(_) => PrivateKeyType::Rsa,
            PrivateKey::Secp256k1(_) => PrivateKeyType::Secp256k1,
        }
    }

    /// Accepts the RSA sizes 1024, 2048 and 3072 bits.
    pub fn check_bits(bits: usize) -> (r: Result<(), ErrorCode>)
        ensures
            r is Ok <==> (bits == 1024 || bits == 2048 || bits == 3072),
            r is Err ==> r == Err::<(), ErrorCode>(ErrorCode::UnSupport),
    {
        if bits == 1024 || bits == 2048 || bits == 3072 {
            Ok(())
        } else {
            Err(ErrorCode::UnSupport)
        }
    }

    /// A fresh RSA key of `bits` bits.
    pub fn generate_rsa(bits: usize) -> (r: Result<PrivateKey, ErrorCode>)
        ensures
            !(bits == 1024 || bits == 2048 || bits == 3072) <==> r == Err::<PrivateKey, ErrorCode>(
                ErrorCode::UnSupport,
            ),
            r matches Ok(k) ==> k is Rsa && rsa_private_der_ok(k.body()) && rsa_private_der_sound(
                k.body(),
            ) && rsa_private_size_of(k.body()) == Some((bits / 8) as nat) && (rsa_public_der_of(
                k.body(),
            ) matches Some(p) && rsa_public_der_ok(p)),
            r matches Err(e) ==> e == ErrorCode::UnSupport || e == ErrorCode::CryptoError,
    {
        match PrivateKey::check_bits(bits) {
            Err(e) => Err(e),
            Ok(()) => match rsa_generate_der(bits) {
                Some(d) => Ok(PrivateKey::Rsa(d)),
                None => Err(ErrorCode::CryptoError),
            },
        }
    }

    /// A fresh secp256k1 key.
    pub fn generate_secp256k1() -> (r: Result<PrivateKey, ErrorCode>)
        ensures
            r matches Ok(k) && k is Secp256k1 && secp_scalar_ok(k.body()),
    {
        Ok(PrivateKey::Secp256k1(secp_generate()))
    }

    /// A fresh key of the family `pt`; RSA keys have `bits` bits, 1024 when
    /// none is given.
    pub fn generate(pt: PrivateKeyType, bits: Option<usize>) -> (r: Result<PrivateKey, ErrorCode>)
        ensures
            pt == PrivateKeyType::Secp256k1 ==> (r matches Ok(k) && k is Secp256k1),
            pt == PrivateKeyType::Rsa ==> {
                let b = match bits {
                    Some(b) => b,
                    None => 1024,
                };
                &&& !(b == 1024 || b == 2048 || b == 3072) <==> r == Err::<PrivateKey, ErrorCode>(
                    ErrorCode::UnSupport,
                )
                &&& r matches Ok(k) ==> k is Rsa && rsa_private_der_ok(k.body())
                    && rsa_private_der_sound(k.body()) && rsa_private_size_of(k.body()) == Some(
                    (b / 8) as nat,
                ) && (rsa_public_der_of(k.body()) matches Some(p) && rsa_public_der_ok(p))
            },
    {
        match pt {
            PrivateKeyType::Rsa => PrivateKey::generate_rsa(
                match bits {
                    Some(b) => b,
                    None => DEFAULT_RSA_BITS,
                },
            ),
            PrivateKeyType::Secp256k1 => PrivateKey::generate_secp256k1(),
        }
    }

    /// The matching public key. Key material the algorithm refuses has none;
    /// it then gets an empty RSA key or a zero point, which verify nothing.
    pub fn public(&self) -> (r: PublicKey)
        ensures
            r.spec_tag() == self.spec_tag(),
            r.body() == self.public_body(),
    {
        match self {
            PrivateKey::Rsa(d) => PublicKey::Rsa(
                match rsa_public_der(d.as_slice()) {
                    Some(v) => v,
                    None => Vec::new(),
                },
            ),
            PrivateKey::Secp256k1(s) => {
                let p = match secp_point(s) {
                    Some(p) => p,
                    None => [0u8; 33],
                };
                assert(!secp_scalar_ok(s@) ==> p@ =~= Seq::new(33, |i: int| 0u8));
                PublicKey::Secp256k1(p)
            },
        }
    }

    /// Signs `data` together with the current time: the digest of
    /// `signing_input(data, time)` is signed, with PKCS#1 v1.5 for RSA and as
    /// the ECDSA message for secp256k1, and the time is kept in the signature.
    pub fn sign(&self, data: &[u8]) -> (r: Result<Signature, ErrorCode>)
        ensures
            self is Secp256k1 || (rsa_public_der_of(self.body()) is Some && rsa_public_der_ok(
                self.public_body(),
            )) ==> (r matches Ok(s) ==> key_verifies(
                self.spec_tag(),
                self.public_body(),
                data@,
                s@,
            )),
            self is Secp256k1 ==> {
                &&& r is Ok <==> secp_scalar_ok(self.body())
                &&& r matches Ok(s) ==> s@.1 == KEY_TYPE_SECP256K1 && s@.2 == ecdsa_signature_of(
                    self.body(),
                    signed_digest(data@, s@.0),
                )
                &&& r is Err ==> r == Err::<Signature, ErrorCode>(ErrorCode::CryptoError)
            },
            self is Rsa && rsa_private_der_sound(self.body()) && (rsa_private_size_of(self.body()) matches Some(
                n,
            ) && (n == 128 || n == 256 || n == 384)) ==> r is Ok,
            self is Rsa ==> match r {
                Ok(s) => rsa_signature_of(self.body(), signed_digest(data@, s@.0)) == Some(s@.2)
                    && rsa_private_size_of(self.body()) == Some(s@.2.len()) && s@.1
                    != KEY_TYPE_SECP256K1,
                Err(e) => e == ErrorCode::CryptoError || (e == ErrorCode::UnSupport && (
                rsa_private_size_of(self.body()) matches Some(n) && n != 128 && n != 256 && n
                    != 384)),
            },
    {
        let time = time_now();
        let digest = signing_digest(data, time);
        match self {
            PrivateKey::Rsa(d) => {
                match rsa_sign(d.as_slice(), digest.as_slice()) {
                    Some(sig) => match SignData::from_rsa_signature(sig.as_slice()) {
                        Ok(sd) => Ok(Signature::new(time, sd)),
                        Err(e) => Err(e),
                    },
                    None => Err(ErrorCode::CryptoError),
                }
            },
            PrivateKey::Secp256k1(s) => match secp_sign(&digest.0, s) {
                Some(sig) => Ok(Signature::new(time, SignData::Ecc(sig))),
                None => Err(ErrorCode::CryptoError),
            },
        }
    }

    /// Decrypts `input` into the front of `output` and returns the length of
    /// the plaintext; a plaintext longer than `output` gives `InvalidFormat`.
    pub fn decrypt(&self, input: &[u8], output: &mut [u8]) -> (r: Result<usize, ErrorCode>)
        ensures
            match self.decrypted(input@) {
                Err(e) => r == Err::<usize, ErrorCode>(e),
                Ok(p) => if old(output)@.len() < p.len() {
                    r == Err::<usize, ErrorCode>(ErrorCode::InvalidFormat)
                } else {
                    r == Ok::<usize, ErrorCode>(p.len() as usize) && final(output)@ == p + old(
                        output,
                    )@.subrange(p.len() as int, old(output)@.len() as int)
                },
            },
            r is Err ==> final(output)@ == old(output)@,
    {
        let buf = match self.decrypt_data(input) {
            Ok(b) => b,
            Err(e) => return Err(e),
        };
        if output.len() < buf.len() {
            return Err(ErrorCode::InvalidFormat);
        }
        write_at(output, 0, buf.as_slice());
        assert(old(output)@.subrange(0, 0) + buf@ =~= buf@);
        Ok(buf.len())
    }

    /// Decrypts `input` with RSA PKCS#1 v1.5; secp256k1 keys do not decrypt
    /// directly.
    pub fn decrypt_data(&self, input: &[u8]) -> (r: Result<Vec<u8>, ErrorCode>)
        ensures
            bytes_result(r) == self.decrypted(input@),
    {
        match self {
            PrivateKey::Rsa(d) => match rsa_decrypt(d.as_slice(), input) {
                Some(b) => Ok(b),
                None => Err(ErrorCode::CryptoError),
            },
            PrivateKey::Secp256k1(_) => Err(ErrorCode::NotSupport),
        }
    }

    /// Unwraps a session key from the front of `input` into the front of
    /// `output`; returns the bytes of `input` that follow and the key's length.
    /// An `output` shorter than the key gives `InvalidParam`.
    pub fn decrypt_aeskey<'d>(&self, input: &'d [u8], output: &mut [u8]) -> (r: Result<
        (&'d [u8], usize),
        ErrorCode,
    >)
        ensures
            match self.unwrapped(input@) {
                Err(e) => r matches Err(e2) && e2 == e,
                Ok((n, key)) => if old(output)@.len() < key.len() {
                    r matches Err(e2) && e2 == ErrorCode::InvalidParam
                } else {
                    r matches Ok((rest, m)) && m == key.len() && rest@ == input@.subrange(
                        n as int,
                        input@.len() as int,
                    ) && final(output)@ == key + old(output)@.subrange(
                        key.len() as int,
                        old(output)@.len() as int,
                    )
                },
            },
            r is Err ==> final(output)@ == old(output)@,
    {
        let (rest, key) = match self.decrypt_aeskey_data(input) {
            Ok(x) => x,
            Err(e) => return Err(e),
        };
        if output.len() < key.len() {
            return Err(ErrorCode::InvalidParam);
        }
        write_at(output, 0, key.as_slice());
        assert(old(output)@.subrange(0, 0) + key@ =~= key@);
        Ok((rest, key.len()))
    }

    /// Unwraps a session key from the front of `input`: an RSA ciphertext of
    /// the modulus size, or a 33-byte ephemeral secp256k1 public point. Returns
    /// the bytes that follow and the key.
    pub fn decrypt_aeskey_data<'d>(&self, input: &'d [u8]) -> (r: Result<
        (&'d [u8], Vec<u8>),
        ErrorCode,
    >)
        ensures
            match self.unwrapped(input@) {
                Err(e) => r matches Err(e2) && e2 == e,
                Ok((n, key)) => r matches Ok((rest, k)) && k@ == key && rest@ == input@.subrange(
                    n as int,
                    input@.len() as int,
                ),
            },
            self is Secp256k1 ==> (r matches Ok((_, k)) ==> k@.len() == 48),
    {
        match self {
            PrivateKey::Rsa(d) => {
                let size = match rsa_private_size(d.as_slice()) {
                    Some(n) => n,
                    None => return Err(ErrorCode::CryptoError),
                };
                let (block, rest) = match split_wrapped(input, size) {
                    Ok(x) => x,
                    Err(e) => return Err(e),
                };
                let buf = match self.decrypt_data(block) {
                    Ok(b) => b,
                    Err(e) => return Err(e),
                };
                Ok((rest, buf))
            },
            PrivateKey::Secp256k1(s) => {
                let (block, rest) = match split_wrapped(input, SECP_PUBLIC_KEY_BYTES) {
                    Ok(x) => x,
                    Err(e) => return Err(e),
                };
                if !secp_point_valid(block) {
                    return Err(ErrorCode::InvalidFormat);
                }
                let shared = match ecies_decapsulate(block, s) {
                    Some(x) => x,
                    None => return Err(ErrorCode::CryptoError),
                };
                let key = session_key_from_shared(&shared);
                Ok((rest, key))
            },
        }
    }

    /// The encoding: the key's frame with the PKCS#1 DER body for RSA, the
    /// 32-byte scalar for secp256k1.
    pub fn to_vec(&self) -> (r: Result<Vec<u8>, ErrorCode>)
        ensures
            bytes_result(r) == self.encoding(),
    {
        match self {
            PrivateKey::Rsa(d) => {
                if d.len() > 0xffff {
                    return Err(ErrorCode::OutOfLimit);
                }
                Ok(encode_key_frame(KEY_TYPE_RSA, d.as_slice()))
            },
            PrivateKey::Secp256k1(s) => Ok(encode_key_frame(KEY_TYPE_SECP256K1, s.as_slice())),
        }
    }

    /// The size of the encoding.
    pub fn raw_measure(&self) -> (r: Result<usize, ErrorCode>)
        ensures
            match self.encoding() {
                Ok(v) => r == Ok::<usize, ErrorCode>(v.len() as usize),
                Err(e) => r == Err::<usize, ErrorCode>(e),
            },
            self is Secp256k1 ==> r == Ok::<usize, ErrorCode>(33usize),
    {
        match self.to_vec() {
            Ok(v) => Ok(v.len()),
            Err(e) => Err(e),
        }
    }

    /// Writes the encoding at the front of `buf` and returns its size; the
    /// rest of `buf` stays. A buffer shorter than the encoding gives
    /// `OutOfLimit`.
    pub fn raw_encode(&self, buf: &mut [u8]) -> (r: Result<usize, ErrorCode>)
        ensures
            match self.encoding() {
                Err(e) => r == Err::<usize, ErrorCode>(e),
                Ok(v) => if old(buf)@.len() < v.len() {
                    r == Err::<usize, ErrorCode>(ErrorCode::OutOfLimit)
                } else {
                    r == Ok::<usize, ErrorCode>(v.len() as usize) && final(buf)@ == v + old(
                        buf,
                    )@.subrange(v.len() as int, old(buf)@.len() as int)
                },
            },
            r is Err ==> final(buf)@ == old(buf)@,
    {
        let v = match self.to_vec() {
            Ok(v) => v,
            Err(e) => return Err(e),
        };
        if buf.len() < v.len() {
            return Err(ErrorCode::OutOfLimit);
        }
        write_at(buf, 0, v.as_slice());
        assert(old(buf)@.subrange(0, 0) + v@ =~= v@);
        Ok(v.len())
    }

    /// Reads a key from the front of `buf` and returns it with the bytes that
    /// follow. A frame that is cut short gives `OutOfLimit`, an unknown tag
    /// `InvalidData`, key material the algorithm refuses `CryptoError`.
    pub fn raw_decode(buf: &[u8]) -> (r: Result<(PrivateKey, &[u8]), ErrorCode>)
        ensures
            match key_frame_decoded(buf@, 32) {
                Err(e) => r matches Err(e2) && e2 == e,
                Ok((t, body, n)) => if (t == KEY_TYPE_RSA && rsa_private_der_ok(body)) || (t
                    == KEY_TYPE_SECP256K1 && secp_scalar_ok(body)) {
                    r matches Ok((k, rest)) && k.spec_tag() == t && k.body() == body && rest@
                        == buf@.subrange(n as int, buf@.len() as int)
                } else {
                    r matches Err(e2) && e2 == ErrorCode::CryptoError
                },
            },
    {
        let (tag, body, rest) = match decode_key_frame(buf, SECP_SECRET_KEY_BYTES) {
            Ok(x) => x,
            Err(e) => return Err(e),
        };
        if tag == KEY_TYPE_RSA {
            if rsa_private_der_valid(body) {
                let mut d: Vec<u8> = Vec::new();
                append_bytes(&mut d, body);
                Ok((PrivateKey::Rsa(d), rest))
            } else {
                Err(ErrorCode::CryptoError)
            }
        } else {
            if secp_scalar_valid(body) {
                Ok((PrivateKey::Secp256k1(copy_array::<32>(body, 0)), rest))
            } else {
                Err(ErrorCode::CryptoError)
            }
        }
    }

    /// Decodes a key from the front of `buf`, ignoring what follows.
    pub fn clone_from_slice(buf: &[u8]) -> (r: Result<PrivateKey, ErrorCode>)
        ensures
            match key_frame_decoded(buf@, 32) {
                Err(e) => r == Err::<PrivateKey, ErrorCode>(e),
                Ok((t, body, n)) => if (t == KEY_TYPE_RSA && rsa_private_der_ok(body)) || (t
                    == KEY_TYPE_SECP256K1 && secp_scalar_ok(body)) {
                    r matches Ok(k) && k.spec_tag() == t && k.body() == body
                } else {
                    r == Err::<PrivateKey, ErrorCode>(ErrorCode::CryptoError)
                },
            },
    {
        match PrivateKey::raw_decode(buf) {
            Ok((k, _)) => Ok(k),
            Err(e) => Err(e),
        }
    }
}

} // verus!
