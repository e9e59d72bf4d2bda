use crate::codec::{
    append_bytes, be64, be64_value, be_u64_bytes, copy_array, lemma_be64_round_trip, read_be_u64,
    write_at,
};
use crate::error::ErrorCode;
use vstd::prelude::*;

verus! {

/// Wire tag of RSA signatures and keys of 1024 bits (and of legacy RSA).
pub const KEY_TYPE_RSA: u8 = 0;

/// Wire tag of RSA signatures and keys of 2048 bits.
pub const KEY_TYPE_RSA2048: u8 = 1;

/// Wire tag of RSA signatures and keys of 3072 bits.
pub const KEY_TYPE_RSA3072: u8 = 2;

/// Wire tag of secp256k1 signatures and keys.
pub const KEY_TYPE_SECP256K1: u8 = 5;

/// The payload width that a signature tag fixes, if the tag is known.
pub open spec fn sign_width(tag: u8) -> Option<nat> {
    if tag == KEY_TYPE_RSA {
        Some(128)
    } else if tag == KEY_TYPE_RSA2048 {
        Some(256)
    } else if tag == KEY_TYPE_RSA3072 {
        Some(384)
    } else if tag == KEY_TYPE_SECP256K1 {
        Some(64)
    } else {
        None
    }
}

/// Relies on `bucky_time::bucky_time_now`: the current time in microseconds;
/// nothing is promised of its value.
#[verifier::external_body]
pub(crate) fn time_now() -> (r: u64) {
    bucky_time::bucky_time_now()
}

/// A raw signature: one fixed width per algorithm.
#[derive(Clone, PartialEq, Eq, Debug)]
pub enum SignData {
    Rsa1024([u8; 128]),
    Rsa2048([u8; 256]),
    Rsa3072([u8; 384]),
    Ecc([u8; 64]),
}

impl View for SignData {
    /// The wire tag and the payload bytes.
    type V = (u8, Seq<u8>);

    open spec fn view(&self) -> (u8, Seq<u8>) {
        match self {
            SignData::Rsa1024(a) => (KEY_TYPE_RSA, a@),
            SignData::Rsa2048(a) => (KEY_TYPE_RSA2048, a@),
            SignData::Rsa3072(a) => (KEY_TYPE_RSA3072, a@),
            SignData::Ecc(a) => (KEY_TYPE_SECP256K1, a@),
        }
    }
}

impl SignData {
    /// The name of the algorithm.
    pub fn sign_type(&self) -> (r: &str)
        ensures
            r@ == match self {
                SignData::Rsa1024(_) => "rsa1024"@,
                SignData::Rsa2048(_) => "rsa2048"@,
                SignData::Rsa3072(_) => "rsa3072"@,
                SignData::Ecc(_) => "ecc"@,
            },
    {
        match self {
            SignData::Rsa1024(_) => "rsa1024",
            SignData::Rsa2048(_) => "rsa2048",
            SignData::Rsa3072(_) => "rsa3072",
            SignData::Ecc(_) => "ecc",
        }
    }

    /// The wire tag.
    pub fn tag(&self) -> (r: u8)
        ensures
            r == self@.0,
    {
        match self {
            SignData::Rsa1024(_) => KEY_TYPE_RSA,
            SignData::Rsa2048(_) => KEY_TYPE_RSA2048,
            SignData::Rsa3072(_) => KEY_TYPE_RSA3072,
            SignData::Ecc(_) => KEY_TYPE_SECP256K1,
        }
    }

    /// The payload bytes.
    pub fn as_slice(&self) -> (r: &[u8])
        ensures
            r@ == self@.1,
            sign_width(self@.0) == Some(r@.len()),
    {
        match self {
            SignData::Rsa1024(a) => a.as_slice(),
            SignData::Rsa2048(a) => a.as_slice(),
            SignData::Rsa3072(a) => a.as_slice(),
            SignData::Ecc(a) => a.as_slice(),
        }
    }

    /// Packs an RSA signature by its length: 128, 256 or 384 bytes.
    pub fn from_rsa_signature(sig: &[u8]) -> (r: Result<SignData, ErrorCode>)
        ensures
            sig@.len() == 128 || sig@.len() == 256 || sig@.len() == 384 <==> r is Ok,
            r matches Ok(d) ==> d@.1 == sig@ && sign_width(d@.0) == Some(sig@.len()) && d@.0
                != KEY_TYPE_SECP256K1,
            r is Err ==> r == Err::<SignData, ErrorCode>(ErrorCode::UnSupport),
    {
        let n = sig.len();
        let tag = if n == 128 {
            KEY_TYPE_RSA
        } else if n == 256 {
            KEY_TYPE_RSA2048
        } else if n == 384 {
            KEY_TYPE_RSA3072
        } else {
            return Err(ErrorCode::UnSupport);
        };
        match SignData::from_tag(tag, sig, 0) {
            Some(d) => {
                assert(sig@.subrange(0, n as int) =~= sig@);
                Ok(d)
            },
            None => Err(ErrorCode::UnSupport),
        }
    }

    /// Packs the payload that `tag` names, read from `src` at `start`.
    pub fn from_tag(tag: u8, src: &[u8], start: usize) -> (r: Option<SignData>)
        requires
            sign_width(tag) is Some ==> start + sign_width(tag)->0 <= src@.len(),
        ensures
            r is Some <==> sign_width(tag) is Some,
            r matches Some(d) ==> d@ == (tag, src@.subrange(start as int, start + sign_width(tag)->0)),
    {
        if tag == KEY_TYPE_RSA {
            Some(SignData::Rsa1024(copy_array::<128>(src, start)))
        } else if tag == KEY_TYPE_RSA2048 {
            Some(SignData::Rsa2048(copy_array::<256>(src, start)))
        } else if tag == KEY_TYPE_RSA3072 {
            Some(SignData::Rsa3072(copy_array::<384>(src, start)))
        } else if tag == KEY_TYPE_SECP256K1 {
            Some(SignData::Ecc(copy_array::<64>(src, start)))
        } else {
            None
        }
    }
}

/// A signature: the time it was made and the raw signature. The time is part
/// of what was signed.
#[derive(Clone, PartialEq, Eq, Debug)]
pub struct Signature {
    sign_time: u64,
    sign: SignData,
}

impl View for Signature {
    /// The time, the wire tag and the payload.
    type V = (u64, u8, Seq<u8>);

    closed spec fn view(&self) -> (u64, u8, Seq<u8>) {
        (self.sign_time, self.sign@.0, self.sign@.1)
    }
}

/// The encoding of a signature: eight big-endian bytes of time, the tag, the
/// payload.
pub open spec fn signature_encoding(v: (u64, u8, Seq<u8>)) -> Seq<u8> {
    be64(v.0) + seq![v.1] + v.2
}

/// A signature value has a known tag and a payload of that tag's width.
pub open spec fn signature_view_wf(v: (u64, u8, Seq<u8>)) -> bool {
    sign_width(v.1) == Some(v.2.len())
}

/// What decoding a signature from the front of `b` gives: the signature and
/// the number of bytes it took.
pub open spec fn signature_decoded(b: Seq<u8>) -> Result<((u64, u8, Seq<u8>), nat), ErrorCode> {
    if b.len() < 9 {
        Err(ErrorCode::OutOfLimit)
    } else {
        match sign_width(b[8]) {
            None => Err(ErrorCode::NotMatch),
            Some(w) => if b.len() < 9 + w {
                Err(ErrorCode::OutOfLimit)
            } else {
                Ok(((be64_value(b), b[8], b.subrange(9, 9 + w as int)), (9 + w) as nat))
            },
        }
    }
}

/// Every signature's view is well formed.
pub proof fn lemma_signature_wf(s: Signature)
    ensures
        signature_view_wf(s@),
{
}

/// Decoding the encoding of a signature gives it back and takes exactly the
/// encoding, whatever follows it.
pub proof fn lemma_signature_round_trip(v: (u64, u8, Seq<u8>), rest: Seq<u8>)
    requires
        signature_view_wf(v),
    ensures
        signature_decoded(signature_encoding(v) + rest) == Ok::<_, ErrorCode>(
            (v, signature_encoding(v).len()),
        ),
{
    let e = signature_encoding(v);
    let b = e + rest;
    lemma_be64_round_trip(v.0);
    assert(b.subrange(0, 8) =~= be64(v.0));
    assert(be64_value(b) == be64_value(be64(v.0)));
    assert(b[8] == v.1);
    assert(b.subrange(9, 9 + v.2.len() as int) =~= v.2);
}

/// What decodes is encoded again to exactly the bytes it was read from.
pub proof fn lemma_signature_reencode(b: Seq<u8>)
    requires
        signature_decoded(b) is Ok,
    ensures
        signature_view_wf(signature_decoded(b)->Ok_0.0),
        signature_encoding(signature_decoded(b)->Ok_0.0) == b.subrange(
            0,
            signature_decoded(b)->Ok_0.1 as int,
        ),
{
    let (v, n) = signature_decoded(b)->Ok_0;
    let t = be64_value(b);
    let (b0, b1, b2, b3, b4, b5, b6, b7) = (b[0], b[1], b[2], b[3], b[4], b[5], b[6], b[7]);
    assert(t == (b0 as u64) << 56u64 | (b1 as u64) << 48u64 | (b2 as u64) << 40u64 | (b3 as u64)
        << 32u64 | (b4 as u64) << 24u64 | (b5 as u64) << 16u64 | (b6 as u64) << 8u64 | (
    b7 as u64) ==> b0 == (t >> 56u64) as u8 && b1 == (t >> 48u64) as u8 && b2 == (t
        >> 40u64) as u8 && b3 == (t >> 32u64) as u8 && b4 == (t >> 24u64) as u8 && b5 == (t
        >> 16u64) as u8 && b6 == (t >> 8u64) as u8 && b7 == t as u8) by (bit_vector);
    assert(signature_encoding(v) =~= b.subrange(0, n as int));
}

/// An encoding cut short decodes to `OutOfLimit`.
pub proof fn lemma_signature_truncated(v: (u64, u8, Seq<u8>), k: int)
    requires
        signature_view_wf(v),
        0 <= k < signature_encoding(v).len(),
    ensures
        signature_decoded(signature_encoding(v).subrange(0, k)) == Err::<
            ((u64, u8, Seq<u8>), nat),
            ErrorCode,
        >(ErrorCode::OutOfLimit),
{
    let p = signature_encoding(v).subrange(0, k);
    if k >= 9 {
        assert(p[8] == v.1);
    }
}

/// Signatures made at different times have different encodings.
pub proof fn lemma_signature_time_bound(v1: (u64, u8, Seq<u8>), v2: (u64, u8, Seq<u8>))
    requires
        v1.0 != v2.0,
    ensures
        signature_encoding(v1) != signature_encoding(v2),
{
    lemma_be64_round_trip(v1.0);
    lemma_be64_round_trip(v2.0);
    let e1 = signature_encoding(v1);
    let e2 = signature_encoding(v2);
    assert(e1.subrange(0, 8) =~= be64(v1.0));
    assert(e2.subrange(0, 8) =~= be64(v2.0));
    if e1 == e2 {
        assert(be64(v1.0) == be64(v2.0));
    }
}

impl Signature {
    /// A signature made at `sign_time`.
    pub fn new(sign_time: u64, sign: SignData) -> (r: Signature)
        ensures
            r@ == (sign_time, sign@.0, sign@.1),
            r.spec_sign() == sign,
    {
        Signature { sign_time, sign }
    }

    /// The raw signature, as a spec value.
    pub closed spec fn spec_sign(&self) -> SignData {
        self.sign
    }

    /// The raw signature.
    pub fn sign(&self) -> (r: &SignData)
        ensures
            *r == self.spec_sign(),
            r@ == (self@.1, self@.2),
    {
        &self.sign
    }

    /// The payload bytes.
    pub fn as_slice(&self) -> (r: &[u8])
        ensures
            r@ == self@.2,
    {
        self.sign.as_slice()
    }

    /// The time the signature was made.
    pub fn sign_time(&self) -> (r: u64)
        ensures
            r == self@.0,
    {
        self.sign_time
    }

    /// The size of the encoding.
    pub fn raw_measure(&self) -> (r: usize)
        ensures
            r == signature_encoding(self@).len(),
    {
        9 + self.sign.as_slice().len()
    }

    /// The encoding as a vector.
    pub fn to_vec(&self) -> (r: Vec<u8>)
        ensures
            r@ == signature_encoding(self@),
    {
        let mut r: Vec<u8> = Vec::new();
        let t = be_u64_bytes(self.sign_time);
        append_bytes(&mut r, t.as_slice());
        r.push(self.sign.tag());
        append_bytes(&mut r, self.sign.as_slice());
        r
    }

    /// Writes the encoding at the front of `buf` and returns its size; the
    /// rest of `buf` stays.
    pub fn raw_encode(&self, buf: &mut [u8]) -> (r: Result<usize, ErrorCode>)
        ensures
            old(buf)@.len() < signature_encoding(self@).len() <==> r is Err,
            r is Err ==> r == Err::<usize, ErrorCode>(ErrorCode::OutOfLimit) && final(buf)@
                == old(buf)@,
            r is Ok ==> r == Ok::<usize, ErrorCode>(signature_encoding(self@).len() as usize)
                && final(buf)@ == signature_encoding(self@) + old(buf)@.subrange(
                signature_encoding(self@).len() as int,
                old(buf)@.len() as int,
            ),
    {
        let size = self.raw_measure();
        if buf.len() < size {
            return Err(ErrorCode::OutOfLimit);
        }
        let v = self.to_vec();
        write_at(buf, 0, v.as_slice());
        assert(old(buf)@.subrange(0, 0) + v@ =~= v@);
        Ok(size)
    }

    /// Reads a signature from the front of `buf` and returns it with the bytes
    /// that follow.
    pub fn raw_decode(buf: &[u8]) -> (r: Result<(Signature, &[u8]), ErrorCode>)
        ensures
            match r {
                Ok((s, rest)) => signature_decoded(buf@) == Ok::<_, ErrorCode>(
                    (s@, signature_encoding(s@).len()),
                ) && rest@ == buf@.subrange(signature_encoding(s@).len() as int, buf@.len() as int),
                Err(e) => signature_decoded(buf@) == Err::<((u64, u8, Seq<u8>), nat), ErrorCode>(e),
            },
    {
        if buf.len() < 9 {
            return Err(ErrorCode::OutOfLimit);
        }
        let sign_time = read_be_u64(buf);
        let tag = buf[8];
        let width: usize = if tag == KEY_TYPE_RSA {
            128
        } else if tag == KEY_TYPE_RSA2048 {
            256
        } else if tag == KEY_TYPE_RSA3072 {
            384
        } else if tag == KEY_TYPE_SECP256K1 {
            64
        } else {
            return Err(ErrorCode::NotMatch);
        };
        if buf.len() - 9 < width {
            return Err(ErrorCode::OutOfLimit);
        }
        match SignData::from_tag(tag, buf, 9) {
            Some(sign) => {
                let s = Signature { sign_time, sign };
                Ok((s, &buf[9 + width..buf.len()]))
            },
            None => Err(ErrorCode::NotMatch),
        }
    }

    /// Decodes a signature from the front of `buf`, ignoring what follows.
    pub fn clone_from_slice(buf: &[u8]) -> (r: Result<Signature, ErrorCode>)
        ensures
            match r {
                Ok(s) => signature_decoded(buf@) matches Ok((v, _)) && v == s@,
                Err(e) => signature_decoded(buf@) == Err::<((u64, u8, Seq<u8>), nat), ErrorCode>(e),
            },
    {
        match Signature::raw_decode(buf) {
            Ok((s, _)) => Ok(s),
            Err(e) => Err(e),
        }
    }
}

impl Default for Signature {
    /// A placeholder signature of zero bytes, stamped with the current time.
    /// It is no signature of anything.
    fn default() -> (r: Signature)
        ensures
            r@.1 == KEY_TYPE_RSA,
            r@.2 == Seq::new(128, |i: int| 0u8),
    {
        let r = Signature { sign_time: time_now(), sign: SignData::Rsa1024([0u8; 128]) };
        assert(r@.2 =~= Seq::new(128, |i: int| 0u8));
        r
    }
}

} // verus!
