use vstd::prelude::*;

verus! {

/// Bytes in the length header of a sized frame.
pub const HEADER_LEN: usize = 8;

/// The eight little-endian bytes of `n`.
pub open spec fn le_bytes(n: u64) -> Seq<u8> {
    seq![
        n as u8,
        (n >> 8u64) as u8,
        (n >> 16u64) as u8,
        (n >> 24u64) as u8,
        (n >> 32u64) as u8,
        (n >> 40u64) as u8,
        (n >> 48u64) as u8,
        (n >> 56u64) as u8,
    ]
}

pub open spec fn le_value_of(b0: u8, b1: u8, b2: u8, b3: u8, b4: u8, b5: u8, b6: u8, b7: u8) -> u64 {
    (b0 as u64) | ((b1 as u64) << 8u64) | ((b2 as u64) << 16u64) | ((b3 as u64) << 24u64) | ((
    b4 as u64) << 32u64) | ((b5 as u64) << 40u64) | ((b6 as u64) << 48u64) | ((b7 as u64)
        << 56u64)
}

/// The number that the first eight bytes of `b` spell in little-endian order.
pub open spec fn le_value(b: Seq<u8>) -> u64
    recommends
        b.len() >= 8,
{
    le_value_of(b[0], b[1], b[2], b[3], b[4], b[5], b[6], b[7])
}

/// A sized frame: the length it announces, as a header, then the payload.
pub open spec fn framed(size: u64, payload: Seq<u8>) -> Seq<u8> {
    le_bytes(size) + payload
}

/// The header reads back as the number it was written from.
pub proof fn lemma_le_round_trip(n: u64)
    ensures
        le_value(le_bytes(n)) == n,
{
    let b = le_bytes(n);
    assert(le_value_of(
        n as u8,
        (n >> 8u64) as u8,
        (n >> 16u64) as u8,
        (n >> 24u64) as u8,
        (n >> 32u64) as u8,
        (n >> 40u64) as u8,
        (n >> 48u64) as u8,
        (n >> 56u64) as u8,
    ) == n) by (bit_vector);
}

/// Writes a sized frame: the little-endian header for `size`, then `payload`.
pub fn write_frame(size: u64, payload: &[u8]) -> (r: Vec<u8>)
    ensures
        r@ == framed(size, payload@),
{
    let mut out: Vec<u8> = Vec::new();
    out.push(size as u8);
    out.push((size >> 8u64) as u8);
    out.push((size >> 16u64) as u8);
    out.push((size >> 24u64) as u8);
    out.push((size >> 32u64) as u8);
    out.push((size >> 40u64) as u8);
    out.push((size >> 48u64) as u8);
    out.push((size >> 56u64) as u8);
    assert(out@ == le_bytes(size));
    let mut i: usize = 0;
    while i < payload.len()
        invariant
            i <= payload@.len(),
            out@ == le_bytes(size) + payload@.subrange(0, i as int),
        decreases payload@.len() - i,
    {
        out.push(payload[i]);
        i = i + 1;
        assert(out@ == le_bytes(size) + payload@.subrange(0, i as int));
    }
    assert(payload@.subrange(0, payload@.len() as int) == payload@);
    out
}

/// Splits a sized frame into the size its header announces and its payload,
/// or `None` where it is shorter than a header.
pub fn read_frame(data: &[u8]) -> (r: Option<(u64, &[u8])>)
    ensures
        data@.len() < HEADER_LEN <==> r is None,
        r matches Some((size, payload)) ==> size == le_value(data@) && payload@ == data@.skip(
            HEADER_LEN as int,
        ),
{
    if data.len() < HEADER_LEN {
        return None;
    }
    let size = (data[0] as u64) | ((data[1] as u64) << 8u64) | ((data[2] as u64) << 16u64) | ((
    data[3] as u64) << 24u64) | ((data[4] as u64) << 32u64) | ((data[5] as u64) << 40u64) | ((
    data[6] as u64) << 48u64) | ((data[7] as u64) << 56u64);
    let (_, payload) = data.split_at(HEADER_LEN);
    Some((size, payload))
}

/// A frame reads back as the size and payload it was written from.
pub proof fn lemma_frame_round_trip(size: u64, payload: Seq<u8>)
    ensures
        framed(size, payload).len() >= HEADER_LEN,
        le_value(framed(size, payload)) == size,
        framed(size, payload).skip(HEADER_LEN as int) == payload,
{
    let f = framed(size, payload);
    lemma_le_round_trip(size);
    assert(f.subrange(0, 8) == le_bytes(size));
    assert(f.skip(8) == payload);
}

} // verus!
