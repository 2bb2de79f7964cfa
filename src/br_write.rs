use vstd::prelude::*;
use crate::br_read::brotli_decoded;
use crate::codec::{encoded, CodecError};

verus! {

/// The highest quality the Brotli encoder documents.
pub const BROTLI_MAX_QUALITY: i32 = 11;

/// The base-two logarithm of the sliding window the probe encodes with.
pub const BROTLI_WINDOW_BITS: i32 = 22;

/// The Brotli stream that the brotli crate makes of `data`.
pub uninterp spec fn brotli_encoded(data: Seq<u8>, quality: i32, lgwin: i32) -> Seq<u8>;

/// Relies on brotli::BrotliCompress with `quality` and `lgwin` set and the
/// other parameters at their defaults: a Brotli stream that a Brotli decoder
/// restores to `data`. Reading a slice and writing a `Vec` cannot fail, so it
/// always succeeds.
#[verifier::external_body]
fn brotli_compress(data: &[u8], quality: i32, lgwin: i32) -> (r: Option<Vec<u8>>)
    requires
        0 <= quality <= BROTLI_MAX_QUALITY,
        10 <= lgwin <= 24,
    ensures
        r is Some,
        r matches Some(v) ==> v@ == brotli_encoded(data@, quality, lgwin),
        r matches Some(v) ==> brotli_decoded(v@) == Some(data@),
{
    let mut input = data;
    let mut out = Vec::new();
    let params = brotli::enc::BrotliEncoderParams { lgwin, quality, ..Default::default() };
    brotli::BrotliCompress(&mut input, &mut out, &params).ok().map(|_| out)
}

/// Encodes `data` as a Brotli stream at `quality`, which must lie in
/// `0..=11`, with a window of `2^22` bytes.
pub fn compress(data: &[u8], quality: i32) -> (r: Result<Vec<u8>, CodecError>)
    ensures
        !(0 <= quality <= BROTLI_MAX_QUALITY) <==> r == Err::<Vec<u8>, CodecError>(
            CodecError::InvalidLevel,
        ),
        0 <= quality <= BROTLI_MAX_QUALITY ==> (r matches Ok(v) && v@ == brotli_encoded(
            data@,
            quality,
            BROTLI_WINDOW_BITS,
        ) && brotli_decoded(v@) == Some(data@)),
{
    if quality < 0 || quality > BROTLI_MAX_QUALITY {
        return Err(CodecError::InvalidLevel);
    }
    encoded(brotli_compress(data, quality, BROTLI_WINDOW_BITS))
}

} // verus!
