use vstd::prelude::*;
use crate::codec::{decoded, decodes_to, opt_bytes, CodecError};

verus! {

/// What zune_inflate decodes from a raw deflate stream, if it is one.
pub uninterp spec fn zune_inflated(data: Seq<u8>) -> Option<Seq<u8>>;

/// Relies on zune_inflate::DeflateDecoder (new, decode_deflate) with default
/// options: the bytes a raw deflate stream holds, or an error where it is
/// not one.
#[verifier::external_body]
fn zune_decompress(data: &[u8]) -> (r: Option<Vec<u8>>)
    ensures
        opt_bytes(r) == zune_inflated(data@),
{
    let mut decoder = zune_inflate::DeflateDecoder::new(data);
    decoder.decode_deflate().ok()
}

/// Inflates a raw deflate stream with zune_inflate.
pub fn decompress(data: &[u8]) -> (r: Result<Vec<u8>, CodecError>)
    ensures
        decodes_to(r, zune_inflated(data@)),
{
    decoded(zune_decompress(data))
}

} // verus!
