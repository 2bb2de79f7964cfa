use vstd::prelude::*;
use crate::codec::{decoded, decodes_to, opt_bytes, CodecError};

verus! {

/// What brotli_decompressor restores from a Brotli stream, if it is one.
pub uninterp spec fn brotli_decoded(data: Seq<u8>) -> Option<Seq<u8>>;

/// Relies on brotli_decompressor::BrotliDecompress, reading a slice and
/// writing a `Vec`: the bytes a Brotli stream holds, or an error where it is
/// not one.
#[verifier::external_body]
fn brotli_decompress(data: &[u8]) -> (r: Option<Vec<u8>>)
    ensures
        opt_bytes(r) == brotli_decoded(data@),
{
    let mut input = data;
    let mut out = Vec::new();
    brotli_decompressor::BrotliDecompress(&mut input, &mut out).ok().map(|_| out)
}

/// Restores the bytes of a Brotli stream.
pub fn decompress(data: &[u8]) -> (r: Result<Vec<u8>, CodecError>)
    ensures
        decodes_to(r, brotli_decoded(data@)),
{
    decoded(brotli_decompress(data))
}

} // verus!
