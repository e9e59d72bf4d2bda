use crate::codec::{append_bytes, copy_array, write_at};
use crate::error::ErrorCode;
use crate::text::{
    base58_decode, base58_decoded, base58_encode, base58_text, hex_decode, hex_decoded,
    hex_encode, hex_text, lemma_hex_round_trip,
};
use sha2::Digest;
use vstd::prelude::*;
use vstd::string::StringSliceAdditionalSpecFns;
use vstd::utf8::encode_utf8;

verus! {

/// The length in bytes of every hash value.
pub const HASH_VALUE_LEN: usize = 32;

/// The 32-byte SHA-256 digest of a byte string.
pub uninterp spec fn sha256_of(data: Seq<u8>) -> Seq<u8>;

/// Relies on `sha2::Sha256::digest`: the 32-byte digest depends on the input alone.
#[verifier::external_body]
fn sha256(data: &[u8]) -> (r: [u8; 32])
    ensures
        r@ == sha256_of(data@),
{
    sha2::Sha256::digest(data).into()
}

/// A 32-byte digest; ordered and compared by its bytes.
#[derive(Clone, Copy, PartialEq, Eq, PartialOrd, Ord, Hash, Debug, Default)]
pub struct HashValue(pub [u8; 32]);

impl View for HashValue {
    type V = Seq<u8>;

    open spec fn view(&self) -> Seq<u8> {
        self.0@
    }
}

/// The digest of `data`.
pub fn hash_data(data: &[u8]) -> (r: HashValue)
    ensures
        r@ == sha256_of(data@),
{
    HashValue(sha256(data))
}

/// What a hex hash text decodes to: bytes, or the error that parsing reports.
pub open spec fn hash_from_hex(t: Seq<u8>) -> Result<Seq<u8>, ErrorCode> {
    match hex_decoded(t) {
        Some(v) => if v.len() == 32 {
            Ok(v)
        } else {
            Err(ErrorCode::InvalidData)
        },
        None => Err(ErrorCode::InvalidFormat),
    }
}

/// What a base58 hash text decodes to; text of over 100 bytes is refused
/// unread, as no 32 bytes have base58 text that long.
pub open spec fn hash_from_base58(t: Seq<u8>) -> Result<Seq<u8>, ErrorCode> {
    if t.len() > 100 {
        Err(ErrorCode::InvalidFormat)
    } else {
        match base58_decoded(t) {
            Some(v) => if v.len() == 32 {
                Ok(v)
            } else {
                Err(ErrorCode::InvalidFormat)
            },
            None => Err(ErrorCode::InvalidFormat),
        }
    }
}

/// What a hash text decodes to: text of 64 bytes is hex, any other is base58.
pub open spec fn hash_from_text(t: Seq<u8>) -> Result<Seq<u8>, ErrorCode> {
    if t.len() == 64 {
        hash_from_hex(t)
    } else {
        hash_from_base58(t)
    }
}

/// The bytes of a parsed hash value, or the error.
pub open spec fn hash_result_view(r: Result<HashValue, ErrorCode>) -> Result<Seq<u8>, ErrorCode> {
    match r {
        Ok(h) => Ok(h@),
        Err(e) => Err(e),
    }
}

/// What decoding a hash value from the front of `b` gives: the value and the
/// number of bytes it took.
pub open spec fn hash_decoded(b: Seq<u8>) -> Result<(Seq<u8>, nat), ErrorCode> {
    if b.len() < 32 {
        Err(ErrorCode::OutOfLimit)
    } else {
        Ok((b.subrange(0, 32), 32))
    }
}

/// The hex text of every hash value parses back to it.
pub proof fn lemma_hash_hex_round_trip(h: HashValue)
    ensures
        hash_from_text(hex_text(h@)) == Ok::<_, ErrorCode>(h@),
{
    lemma_hex_round_trip(h@);
}

/// Decoding the encoding of a hash value gives it back and takes all 32 bytes,
/// whatever follows.
pub proof fn lemma_hash_codec_round_trip(h: HashValue, rest: Seq<u8>)
    ensures
        hash_decoded(h@ + rest) == Ok::<_, ErrorCode>((h@, 32nat)),
{
    assert((h@ + rest).subrange(0, 32) =~= h@);
}

impl HashValue {
    /// The 32 bytes.
    pub fn as_slice(&self) -> (r: &[u8])
        ensures
            r@ == self@,
    {
        self.0.as_slice()
    }

    /// The 32 bytes, for writing in place.
    pub fn as_mut_slice(&mut self) -> (r: &mut [u8])
        ensures
            r@ == old(self)@,
            final(r)@ == final(self)@,
    {
        &mut self.0
    }

    /// The length of every hash value.
    pub fn len() -> (r: usize)
        ensures
            r == 32,
    {
        HASH_VALUE_LEN
    }

    /// Lowercase hex text, 64 digits.
    pub fn to_hex_string(&self) -> (r: String)
        ensures
            encode_utf8(r@) == hex_text(self@),
            encode_utf8(r@).len() == 64,
            hash_from_text(encode_utf8(r@)) == Ok::<_, ErrorCode>(self@),
    {
        let r = hex_encode(self.as_slice());
        proof {
            lemma_hex_round_trip(self@);
        }
        r
    }

    /// Parses hex text of either case; the bytes must number 32.
    pub fn from_hex_string(s: &str) -> (r: Result<HashValue, ErrorCode>)
        ensures
            hash_result_view(r) == hash_from_hex(s.spec_bytes()),
    {
        match hex_decode(s) {
            Ok(v) => HashValue::clone_from_slice(v.as_slice()),
            Err(_) => Err(ErrorCode::InvalidFormat),
        }
    }

    /// Base58 text.
    pub fn to_base58(&self) -> (r: String)
        ensures
            encode_utf8(r@) == base58_text(self@),
            encode_utf8(r@).len() <= 45,
            hash_from_text(encode_utf8(r@)) == Ok::<_, ErrorCode>(self@),
    {
        base58_encode(self.as_slice())
    }

    /// Parses base58 text; the bytes must number 32.
    pub fn from_base58(s: &str) -> (r: Result<HashValue, ErrorCode>)
        ensures
            hash_result_view(r) == hash_from_base58(s.spec_bytes()),
    {
        if s.as_bytes().len() > 100 {
            return Err(ErrorCode::InvalidFormat);
        }
        match base58_decode(s) {
            Ok(v) => {
                if v.len() != 32 {
                    Err(ErrorCode::InvalidFormat)
                } else {
                    HashValue::clone_from_slice(v.as_slice())
                }
            },
            Err(_) => Err(ErrorCode::InvalidFormat),
        }
    }

    /// Parses hex text when `s` is 64 bytes long, base58 text otherwise.
    pub fn from_str(s: &str) -> (r: Result<HashValue, ErrorCode>)
        ensures
            hash_result_view(r) == hash_from_text(s.spec_bytes()),
    {
        if s.as_bytes().len() == 64 {
            HashValue::from_hex_string(s)
        } else {
            HashValue::from_base58(s)
        }
    }

    /// A hash value of the given 32 bytes.
    pub fn clone_from_slice(hash: &[u8]) -> (r: Result<HashValue, ErrorCode>)
        ensures
            hash@.len() == 32 <==> r is Ok,
            r matches Ok(h) ==> h@ == hash@,
            hash@.len() != 32 ==> r == Err::<HashValue, ErrorCode>(ErrorCode::InvalidData),
    {
        if hash.len() != 32 {
            return Err(ErrorCode::InvalidData);
        }
        Ok(HashValue(copy_array::<32>(hash, 0)))
    }

    /// The size of the encoding: 32 bytes.
    pub fn raw_measure(&self) -> (r: usize)
        ensures
            r == 32,
    {
        HASH_VALUE_LEN
    }

    /// Writes the 32 bytes at the front of `buf` and returns how many were
    /// written; the rest of `buf` stays.
    pub fn raw_encode(&self, buf: &mut [u8]) -> (r: Result<usize, ErrorCode>)
        ensures
            old(buf)@.len() < 32 <==> r is Err,
            r is Err ==> r == Err::<usize, ErrorCode>(ErrorCode::OutOfLimit) && final(buf)@
                == old(buf)@,
            r is Ok ==> r == Ok::<usize, ErrorCode>(32) && final(buf)@ == self@ + old(buf)@.subrange(
                32,
                old(buf)@.len() as int,
            ),
    {
        if buf.len() < 32 {
            return Err(ErrorCode::OutOfLimit);
        }
        write_at(buf, 0, self.as_slice());
        assert(old(buf)@.subrange(0, 0) + self@ =~= self@);
        Ok(32)
    }

    /// The 32 bytes as a vector.
    pub fn to_vec(&self) -> (r: Vec<u8>)
        ensures
            r@ == self@,
    {
        let mut r: Vec<u8> = Vec::new();
        append_bytes(&mut r, self.as_slice());
        r
    }

    /// Reads a hash value from the front of `buf` and returns it with the
    /// bytes that follow.
    pub fn raw_decode(buf: &[u8]) -> (r: Result<(HashValue, &[u8]), ErrorCode>)
        ensures
            match r {
                Ok((h, rest)) => hash_decoded(buf@) == Ok::<_, ErrorCode>((h@, 32nat)) && rest@ == buf@.subrange(
                    32,
                    buf@.len() as int,
                ),
                Err(e) => hash_decoded(buf@) == Err::<(Seq<u8>, nat), ErrorCode>(e),
            },
    {
        if buf.len() < 32 {
            return Err(ErrorCode::OutOfLimit);
        }
        let h = HashValue(copy_array::<32>(buf, 0));
        Ok((h, &buf[32..buf.len()]))
    }
}

} // verus!
