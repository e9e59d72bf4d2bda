use vstd::prelude::*;

verus! {

/// The eight big-endian bytes of `v`.
pub open spec fn be64(v: u64) -> Seq<u8> {
    seq![
        (v >> 56u64) as u8,
        (v >> 48u64) as u8,
        (v >> 40u64) as u8,
        (v >> 32u64) as u8,
        (v >> 24u64) as u8,
        (v >> 16u64) as u8,
        (v >> 8u64) as u8,
        v as u8,
    ]
}

/// The `u64` whose big-endian bytes are the first eight of `b`.
pub open spec fn be64_value(b: Seq<u8>) -> u64
    recommends
        b.len() >= 8,
{
    (b[0] as u64) << 56u64 | (b[1] as u64) << 48u64 | (b[2] as u64) << 40u64 | (b[3] as u64)
        << 32u64 | (b[4] as u64) << 24u64 | (b[5] as u64) << 16u64 | (b[6] as u64) << 8u64 | (
    b[7] as u64)
}

/// The two big-endian bytes of `v`.
pub open spec fn be16(v: u16) -> Seq<u8> {
    seq![(v >> 8u16) as u8, v as u8]
}

/// The `u16` whose big-endian bytes are the first two of `b`.
pub open spec fn be16_value(b: Seq<u8>) -> u16
    recommends
        b.len() >= 2,
{
    (b[0] as u16) << 8u16 | (b[1] as u16)
}

/// Reading back the bytes of a `u64` gives the `u64`.
pub proof fn lemma_be64_round_trip(v: u64)
    ensures
        be64_value(be64(v)) == v,
{
    let b = be64(v);
    let (b0, b1, b2, b3, b4, b5, b6, b7) = (b[0], b[1], b[2], b[3], b[4], b[5], b[6], b[7]);
    assert(b0 == (v >> 56u64) as u8 && b7 == v as u8);
    assert(b0 == (v >> 56u64) as u8 && b1 == (v >> 48u64) as u8 && b2 == (v >> 40u64) as u8 && b3
        == (v >> 32u64) as u8 && b4 == (v >> 24u64) as u8 && b5 == (v >> 16u64) as u8 && b6 == (v
        >> 8u64) as u8 && b7 == v as u8 ==> (b0 as u64) << 56u64 | (b1 as u64) << 48u64 | (
    b2 as u64) << 40u64 | (b3 as u64) << 32u64 | (b4 as u64) << 24u64 | (b5 as u64) << 16u64 | (
    b6 as u64) << 8u64 | (b7 as u64) == v) by (bit_vector);
}

/// Reading back the bytes of a `u16` gives the `u16`.
pub proof fn lemma_be16_round_trip(v: u16)
    ensures
        be16_value(be16(v)) == v,
{
    let b = be16(v);
    let (b0, b1) = (b[0], b[1]);
    assert(b0 == (v >> 8u16) as u8 && b1 == v as u8 ==> (b0 as u16) << 8u16 | (b1 as u16) == v)
        by (bit_vector);
}

/// Encodes a `u64` as eight big-endian bytes.
pub fn be_u64_bytes(v: u64) -> (r: [u8; 8])
    ensures
        r@ == be64(v),
{
    let r: [u8; 8] = [
        (v >> 56u64) as u8,
        (v >> 48u64) as u8,
        (v >> 40u64) as u8,
        (v >> 32u64) as u8,
        (v >> 24u64) as u8,
        (v >> 16u64) as u8,
        (v >> 8u64) as u8,
        v as u8,
    ];
    assert(r@ =~= be64(v));
    r
}

/// Encodes a `u16` as two big-endian bytes.
pub fn be_u16_bytes(v: u16) -> (r: [u8; 2])
    ensures
        r@ == be16(v),
{
    let r: [u8; 2] = [(v >> 8u16) as u8, v as u8];
    assert(r@ =~= be16(v));
    r
}

/// Reads a big-endian `u64` from the first eight bytes of `b`.
pub fn read_be_u64(b: &[u8]) -> (r: u64)
    requires
        b@.len() >= 8,
    ensures
        r == be64_value(b@),
{
    (b[0] as u64) << 56u64 | (b[1] as u64) << 48u64 | (b[2] as u64) << 40u64 | (b[3] as u64)
        << 32u64 | (b[4] as u64) << 24u64 | (b[5] as u64) << 16u64 | (b[6] as u64) << 8u64 | (
    b[7] as u64)
}

/// Reads a big-endian `u16` from the first two bytes of `b`.
pub fn read_be_u16(b: &[u8]) -> (r: u16)
    requires
        b@.len() >= 2,
    ensures
        r == be16_value(b@),
{
    (b[0] as u16) << 8u16 | (b[1] as u16)
}

/// Appends the bytes of `src` to `out`.
pub fn append_bytes(out: &mut Vec<u8>, src: &[u8])
    ensures
        final(out)@ == old(out)@ + src@,
{
    let mut i: usize = 0;
    while i < src.len()
        invariant
            i <= src@.len(),
            out@ == old(out)@ + src@.subrange(0, i as int),
        decreases src@.len() - i,
    {
        out.push(src[i]);
        i = i + 1;
        assert(src@.subrange(0, i as int) =~= src@.subrange(0, i - 1) + seq![src@[i - 1]]);
    }
    assert(src@.subrange(0, src@.len() as int) =~= src@);
}

/// Copies `N` bytes of `src`, from `start` on, into an array.
pub fn copy_array<const N: usize>(src: &[u8], start: usize) -> (r: [u8; N])
    requires
        start + N <= src@.len(),
    ensures
        r@ == src@.subrange(start as int, start + N),
{
    let mut r: [u8; N] = [0u8; N];
    let n = src.len();
    let mut i: usize = 0;
    while i < N
        invariant
            i <= N,
            start + N <= src@.len() == n,
            r@.len() == N,
            forall|k: int| 0 <= k < i ==> r@[k] == src@[start + k],
        decreases N - i,
    {
        r[i] = src[start + i];
        i = i + 1;
    }
    assert(r@ =~= src@.subrange(start as int, start + N));
    r
}

/// Writes `src` into `buf` from `start` on; the other bytes of `buf` stay.
pub fn write_at(buf: &mut [u8], start: usize, src: &[u8])
    requires
        start + src@.len() <= old(buf)@.len(),
    ensures
        final(buf)@ == old(buf)@.subrange(0, start as int) + src@ + old(buf)@.subrange(
            start + src@.len(),
            old(buf)@.len() as int,
        ),
{
    let n = buf.len();
    let mut i: usize = 0;
    while i < src.len()
        invariant
            i <= src@.len(),
            start + src@.len() <= old(buf)@.len() == n,
            buf@.len() == old(buf)@.len(),
            forall|k: int| 0 <= k < buf@.len() ==> #[trigger] buf@[k] == if start <= k < start + i {
                src@[k - start]
            } else {
                old(buf)@[k]
            },
        decreases src@.len() - i,
    {
        buf[start + i] = src[i];
        i = i + 1;
    }
    assert(buf@ =~= old(buf)@.subrange(0, start as int) + src@ + old(buf)@.subrange(
        start + src@.len(),
        old(buf)@.len() as int,
    ));
}

} // verus!
