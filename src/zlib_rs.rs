use vstd::prelude::*;
use crate::codec::{decoded, decodes_to, encoded, opt_bytes, CodecError};

verus! {

/// The highest level flate2 documents for its deflate encoder.
pub const FLATE2_MAX_LEVEL: u8 = 9;

/// The raw deflate stream that flate2's encoder makes of `data` at `level`.
pub uninterp spec fn flate2_deflated(data: Seq<u8>, level: u8) -> Seq<u8>;

/// What flate2's decoder inflates from a raw deflate stream, if it is one.
pub uninterp spec fn flate2_inflated(data: Seq<u8>) -> Option<Seq<u8>>;

/// Relies on flate2::write::DeflateEncoder (new, write_all, finish) over a
/// `Vec`: a raw deflate stream that flate2::bufread::DeflateDecoder inflates
/// back to `data`. Writing into a `Vec` cannot fail, so it always succeeds.
#[verifier::external_body]
fn flate2_compress(data: &[u8], level: u8) -> (r: Option<Vec<u8>>)
    requires
        level <= FLATE2_MAX_LEVEL,
    ensures
        r is Some,
        r matches Some(v) ==> v@ == flate2_deflated(data@, level),
        r matches Some(v) ==> flate2_inflated(v@) == Some(data@),
{
    let mut encoder = flate2::write::DeflateEncoder::new(
        Vec::new(),
        flate2::Compression::new(u32::from(level)),
    );
    match std::io::Write::write_all(&mut encoder, data) {
        Ok(()) => encoder.finish().ok(),
        Err(_) => None,
    }
}

/// Relies on flate2::bufread::DeflateDecoder (new, read_to_end): the bytes a
/// raw deflate stream holds, or an error where it is not one.
#[verifier::external_body]
fn flate2_decompress(data: &[u8]) -> (r: Option<Vec<u8>>)
    ensures
        opt_bytes(r) == flate2_inflated(data@),
{
    let mut output = Vec::new();
    std::io::Read::read_to_end(&mut flate2::bufread::DeflateDecoder::new(data), &mut output).ok().map(
        |_| output,
    )
}

/// Inflates a raw deflate stream with flate2.
pub fn decompress_bench(data: &[u8]) -> (r: Result<Vec<u8>, CodecError>)
    ensures
        decodes_to(r, flate2_inflated(data@)),
{
    decoded(flate2_decompress(data))
}

/// Deflates `data` with flate2 at `level`, which must lie in `0..=9`.
pub fn compress_bench(data: &[u8], level: u8) -> (r: Result<Vec<u8>, CodecError>)
    ensures
        level > FLATE2_MAX_LEVEL <==> r == Err::<Vec<u8>, CodecError>(CodecError::InvalidLevel),
        level <= FLATE2_MAX_LEVEL ==> (r matches Ok(v) && v@ == flate2_deflated(data@, level)
            && flate2_inflated(v@) == Some(data@)),
{
    if level > FLATE2_MAX_LEVEL {
        return Err(CodecError::InvalidLevel);
    }
    encoded(flate2_compress(data, level))
}

} // verus!
