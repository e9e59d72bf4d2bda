use crate::codec::{append_bytes, be16, be16_value, be_u16_bytes, lemma_be16_round_trip, read_be_u16};
use crate::error::ErrorCode;
use crate::signature::{KEY_TYPE_RSA, KEY_TYPE_SECP256K1};
use vstd::prelude::*;

verus! {

/// The encoding of a key: its tag, then for RSA two big-endian length bytes and
/// the DER body, for secp256k1 the fixed-size body alone.
pub open spec fn key_frame(tag: u8, body: Seq<u8>) -> Seq<u8> {
    if tag == KEY_TYPE_RSA {
        seq![tag] + be16(body.len() as u16) + body
    } else {
        seq![tag] + body
    }
}

/// A tag and body that `key_frame` encodes faithfully, where a secp256k1 body
/// has `fixed` bytes.
pub open spec fn key_frame_wf(tag: u8, body: Seq<u8>, fixed: nat) -> bool {
    (tag == KEY_TYPE_RSA && body.len() <= 0xffff) || (tag == KEY_TYPE_SECP256K1 && body.len()
        == fixed)
}

/// What decoding a key frame from the front of `b` gives: tag, body and the
/// number of bytes taken; a secp256k1 body has `fixed` bytes.
pub open spec fn key_frame_decoded(b: Seq<u8>, fixed: nat) -> Result<(u8, Seq<u8>, nat), ErrorCode> {
    if b.len() < 1 {
        Err(ErrorCode::OutOfLimit)
    } else if b[0] == KEY_TYPE_RSA {
        if b.len() < 3 {
            Err(ErrorCode::OutOfLimit)
        } else {
            let n = be16_value(b.subrange(1, 3)) as nat;
            if b.len() < 3 + n {
                Err(ErrorCode::OutOfLimit)
            } else {
                Ok((KEY_TYPE_RSA, b.subrange(3, 3 + n as int), 3 + n))
            }
        }
    } else if b[0] == KEY_TYPE_SECP256K1 {
        if b.len() < 1 + fixed {
            Err(ErrorCode::OutOfLimit)
        } else {
            Ok((KEY_TYPE_SECP256K1, b.subrange(1, 1 + fixed as int), 1 + fixed))
        }
    } else {
        Err(ErrorCode::InvalidData)
    }
}

/// Decoding an encoded key frame gives the tag and body back and takes exactly
/// the frame, whatever follows it.
pub proof fn lemma_key_frame_round_trip(tag: u8, body: Seq<u8>, fixed: nat, rest: Seq<u8>)
    requires
        key_frame_wf(tag, body, fixed),
    ensures
        key_frame_decoded(key_frame(tag, body) + rest, fixed) == Ok::<_, ErrorCode>(
            (tag, body, key_frame(tag, body).len()),
        ),
{
    let b = key_frame(tag, body) + rest;
    if tag == KEY_TYPE_RSA {
        lemma_be16_round_trip(body.len() as u16);
        assert(b.subrange(1, 3) =~= be16(body.len() as u16));
        assert(b.subrange(3, 3 + body.len() as int) =~= body);
    } else {
        assert(b.subrange(1, 1 + fixed as int) =~= body);
    }
}

/// What decodes as a key frame is encoded again to exactly the bytes it was
/// read from.
pub proof fn lemma_key_frame_reencode(b: Seq<u8>, fixed: nat)
    requires
        key_frame_decoded(b, fixed) is Ok,
    ensures
        ({
            let (t, body, n) = key_frame_decoded(b, fixed)->Ok_0;
            key_frame_wf(t, body, fixed) && key_frame(t, body) == b.subrange(0, n as int)
        }),
{
    let (t, body, n) = key_frame_decoded(b, fixed)->Ok_0;
    if t == KEY_TYPE_RSA {
        let (x0, x1) = (b[1], b[2]);
        let v = be16_value(b.subrange(1, 3));
        assert(v == (x0 as u16) << 8u16 | (x1 as u16));
        assert(v == (x0 as u16) << 8u16 | (x1 as u16) ==> x0 == (v >> 8u16) as u8 && x1 == v as u8)
            by (bit_vector);
        assert(key_frame(t, body) =~= b.subrange(0, n as int));
    } else {
        assert(key_frame(t, body) =~= b.subrange(0, n as int));
    }
}

/// A frame cut short decodes to `OutOfLimit`.
pub proof fn lemma_key_frame_truncated(tag: u8, body: Seq<u8>, fixed: nat, k: int)
    requires
        key_frame_wf(tag, body, fixed),
        0 <= k < key_frame(tag, body).len(),
    ensures
        key_frame_decoded(key_frame(tag, body).subrange(0, k), fixed) == Err::<
            (u8, Seq<u8>, nat),
            ErrorCode,
        >(ErrorCode::OutOfLimit),
{
    let f = key_frame(tag, body);
    let p = f.subrange(0, k);
    if tag == KEY_TYPE_RSA && k >= 3 {
        lemma_be16_round_trip(body.len() as u16);
        assert(p.subrange(1, 3) =~= be16(body.len() as u16));
    }
}

/// Encodes a key frame.
pub fn encode_key_frame(tag: u8, body: &[u8]) -> (r: Vec<u8>)
    requires
        tag == KEY_TYPE_RSA ==> body@.len() <= 0xffff,
    ensures
        r@ == key_frame(tag, body@),
{
    let mut r: Vec<u8> = Vec::new();
    r.push(tag);
    if tag == KEY_TYPE_RSA {
        let n = be_u16_bytes(body.len() as u16);
        append_bytes(&mut r, n.as_slice());
    }
    append_bytes(&mut r, body);
    r
}

/// Decodes a key frame from the front of `b`, where a secp256k1 body has
/// `fixed` bytes; returns the tag, the body and the bytes that follow.
pub fn decode_key_frame(b: &[u8], fixed: usize) -> (r: Result<(u8, &[u8], &[u8]), ErrorCode>)
    ensures
        match r {
            Ok((t, body, rest)) => key_frame_decoded(b@, fixed as nat) == Ok::<_, ErrorCode>(
                (t, body@, (b@.len() - rest@.len()) as nat),
            ) && rest@.len() <= b@.len() && rest@ == b@.subrange(
                b@.len() - rest@.len(),
                b@.len() as int,
            ),
            Err(e) => key_frame_decoded(b@, fixed as nat) == Err::<(u8, Seq<u8>, nat), ErrorCode>(
                e,
            ),
        },
{
    if b.len() < 1 {
        return Err(ErrorCode::OutOfLimit);
    }
    let tag = b[0];
    if tag == KEY_TYPE_RSA {
        if b.len() < 3 {
            return Err(ErrorCode::OutOfLimit);
        }
        let tail = &b[1..b.len()];
        let n = read_be_u16(tail) as usize;
        assert(tail@.subrange(0, 2) =~= b@.subrange(1, 3));
        if b.len() - 3 < n {
            return Err(ErrorCode::OutOfLimit);
        }
        Ok((tag, &b[3..3 + n], &b[3 + n..b.len()]))
    } else if tag == KEY_TYPE_SECP256K1 {
        if b.len() - 1 < fixed {
            return Err(ErrorCode::OutOfLimit);
        }
        Ok((tag, &b[1..1 + fixed], &b[1 + fixed..b.len()]))
    } else {
        Err(ErrorCode::InvalidData)
    }
}

} // verus!
