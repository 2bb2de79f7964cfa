use vstd::prelude::*;
use crate::codec::{decoded, decodes_to, opt_bytes, CodecError};

verus! {

/// The highest level miniz_oxide documents for its deflate encoder.
pub const MINIZ_MAX_LEVEL: u8 = 10;

/// The raw deflate stream that miniz_oxide makes of `data` at `level`.
pub uninterp spec fn miniz_deflated(data: Seq<u8>, level: u8) -> Seq<u8>;

/// What miniz_oxide inflates from a raw deflate stream, if it is one.
pub uninterp spec fn miniz_inflated(data: Seq<u8>) -> Option<Seq<u8>>;

/// Relies on miniz_oxide::deflate::compress_to_vec: a raw deflate stream,
/// which miniz_oxide::inflate::decompress_to_vec inflates back to `data`.
#[verifier::external_body]
fn miniz_compress(data: &[u8], level: u8) -> (r: Vec<u8>)
    requires
        level <= MINIZ_MAX_LEVEL,
    ensures
        r@ == miniz_deflated(data@, level),
        miniz_inflated(r@) == Some(data@),
{
    miniz_oxide::deflate::compress_to_vec(data, level)
}

/// Relies on miniz_oxide::inflate::decompress_to_vec: the bytes a raw deflate
/// stream holds, or an error where it is not one.
#[verifier::external_body]
fn miniz_decompress(data: &[u8]) -> (r: Option<Vec<u8>>)
    ensures
        opt_bytes(r) == miniz_inflated(data@),
{
    miniz_oxide::inflate::decompress_to_vec(data).ok()
}

/// Inflates a raw deflate stream.
pub fn decompress(data: &[u8]) -> (r: Result<Vec<u8>, CodecError>)
    ensures
        decodes_to(r, miniz_inflated(data@)),
{
    decoded(miniz_decompress(data))
}

/// Deflates `data` at `level`, which must lie in `0..=10`.
pub fn compress(data: &[u8], level: u8) -> (r: Result<Vec<u8>, CodecError>)
    ensures
        level > MINIZ_MAX_LEVEL <==> r == Err::<Vec<u8>, CodecError>(CodecError::InvalidLevel),
        level <= MINIZ_MAX_LEVEL ==> (r matches Ok(v) && v@ == miniz_deflated(data@, level)
            && miniz_inflated(v@) == Some(data@)),
{
    if level > MINIZ_MAX_LEVEL {
        return Err(CodecError::InvalidLevel);
    }
    Ok(miniz_compress(data, level))
}

/// The fold of exclusive-or over `data`, starting from `0xa0`.
pub open spec fn xor_fold(data: Seq<u8>) -> u8
    decreases data.len(),
{
    if data.len() == 0 {
        0xa0u8
    } else {
        xor_fold(data.drop_last()) ^ data.last()
    }
}

/// The fold of a concatenation combines the folds of its parts: folding
/// `a + b` gives the folds of `a` and of `b` combined by exclusive-or, with
/// the start value `0xa0` taken out once.
pub proof fn lemma_xor_fold_concat(a: Seq<u8>, b: Seq<u8>)
    ensures
        xor_fold(a + b) == xor_fold(a) ^ xor_fold(b) ^ 0xa0u8,
    decreases b.len(),
{
    if b.len() == 0 {
        assert(a + b == a);
        let x = xor_fold(a);
        assert(x == x ^ 0xa0u8 ^ 0xa0u8) by (bit_vector);
    } else {
        let c = a + b;
        assert(c.drop_last() == a + b.drop_last());
        lemma_xor_fold_concat(a, b.drop_last());
        let x = xor_fold(a);
        let y = xor_fold(b.drop_last());
        let z = b.last();
        assert((x ^ y ^ 0xa0u8) ^ z == x ^ (y ^ z) ^ 0xa0u8) by (bit_vector);
    }
}

fn twiddle(data: &[u8]) -> (r: u8)
    ensures
        r == xor_fold(data@),
{
    let mut acc: u8 = 0xa0;
    let mut i: usize = 0;
    while i < data.len()
        invariant
            i <= data@.len(),
            acc == xor_fold(data@.subrange(0, i as int)),
        decreases data@.len() - i,
    {
        assert(data@.subrange(0, i + 1).drop_last() == data@.subrange(0, i as int));
        acc = acc ^ data[i];
        i = i + 1;
    }
    assert(data@.subrange(0, data@.len() as int) == data@);
    acc
}

/// Folds exclusive-or over the bytes themselves.
pub fn twiddle_uncompressed(data: &[u8]) -> (r: u8)
    ensures
        r == xor_fold(data@),
{
    twiddle(data)
}

/// Inflates a raw deflate stream and folds exclusive-or over what it holds.
pub fn twiddle_compressed(data: &[u8]) -> (r: Result<u8, CodecError>)
    ensures
        match miniz_inflated(data@) {
            Some(v) => r == Ok::<u8, CodecError>(xor_fold(v)),
            None => r == Err::<u8, CodecError>(CodecError::Malformed),
        },
{
    match miniz_decompress(data) {
        Some(inflated) => Ok(twiddle(inflated.as_slice())),
        None => Err(CodecError::Malformed),
    }
}

} // verus!
