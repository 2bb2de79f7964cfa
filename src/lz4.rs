use vstd::prelude::*;
use crate::codec::{decoded, decodes_to, opt_bytes, CodecError};

verus! {

/// The four little-endian bytes of `n`.
pub open spec fn le_u32_bytes(n: u32) -> Seq<u8> {
    seq![n as u8, (n >> 8u32) as u8, (n >> 16u32) as u8, (n >> 24u32) as u8]
}

/// The size-prepended LZ4 block that lz4_flex makes of `data`.
pub uninterp spec fn lz4_block(data: Seq<u8>) -> Seq<u8>;

/// What lz4_flex restores from a size-prepended block, if it is one.
pub uninterp spec fn lz4_unblock(data: Seq<u8>) -> Option<Seq<u8>>;

/// Relies on lz4_flex::compress_prepend_size: the block starts with the
/// input's length as a `u32`, and lz4_flex::decompress_size_prepended gives
/// the input back.
#[verifier::external_body]
fn lz4_compress(data: &[u8]) -> (r: Vec<u8>)
    requires
        data@.len() <= u32::MAX,
    ensures
        r@ == lz4_block(data@),
        r@.len() >= 4,
        r@.take(4) == le_u32_bytes(data@.len() as u32),
        lz4_unblock(r@) == Some(data@),
{
    lz4_flex::compress_prepend_size(data)
}

/// Relies on lz4_flex::decompress_size_prepended: the bytes a size-prepended
/// block holds, or an error where it is not one. It reserves the size the
/// prefix announces before decoding.
#[verifier::external_body]
fn lz4_decompress(data: &[u8]) -> (r: Option<Vec<u8>>)
    ensures
        opt_bytes(r) == lz4_unblock(data@),
{
    lz4_flex::decompress_size_prepended(data).ok()
}

/// Compresses `data` into a size-prepended LZ4 block: the input's length
/// as four little-endian bytes, then the block.
pub fn compress(data: &[u8]) -> (r: Vec<u8>)
    requires
        data@.len() <= u32::MAX,
    ensures
        r@ == lz4_block(data@),
        r@.len() >= 4,
        r@.take(4) == le_u32_bytes(data@.len() as u32),
        lz4_unblock(r@) == Some(data@),
{
    lz4_compress(data)
}

/// Restores the bytes of a size-prepended LZ4 block.
pub fn decompress(data: &[u8]) -> (r: Result<Vec<u8>, CodecError>)
    ensures
        decodes_to(r, lz4_unblock(data@)),
{
    decoded(lz4_decompress(data))
}

} // verus!
