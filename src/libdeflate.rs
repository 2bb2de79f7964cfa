use vstd::prelude::*;
use crate::codec::{decoded, decodes_to, encoded, CodecError};
use crate::frame::{framed, lemma_frame_round_trip, le_value, read_frame, write_frame, HEADER_LEN};

verus! {

/// The highest level libdeflate accepts.
pub const LIBDEFLATE_MAX_LEVEL: u8 = 12;

/// The gzip stream that libdeflate makes of `data` at `level`.
pub uninterp spec fn gzip_encoded(data: Seq<u8>, level: u8) -> Seq<u8>;

/// What libdeflate decodes from a gzip stream into a buffer of `size` bytes,
/// if the stream is valid and its content fits.
pub uninterp spec fn gzip_decoded(data: Seq<u8>, size: usize) -> Option<Seq<u8>>;

/// Whether `s` has the shape of one gzip member: at least a header and a
/// trailer, and the gzip magic bytes first.
pub open spec fn is_gzip_member(s: Seq<u8>) -> bool {
    s.len() >= 18 && s[0] == 0x1fu8 && s[1] == 0x8bu8
}

/// Relies on libdeflater's CompressionLvl::new, Compressor::new,
/// gzip_compress_bound and gzip_compress: a buffer of the bound's size whose
/// first `n` bytes are the gzip stream, `n` being the size reported; a
/// decoder given a buffer of `data`'s length restores that stream to `data`.
/// A level in range and a buffer of the bound's size always succeed, and the
/// stream is one gzip member: a ten-byte header that starts `1f 8b`, the
/// deflate data, and an eight-byte trailer.
#[verifier::external_body]
fn gzip_compress(data: &[u8], level: u8) -> (r: Option<(Vec<u8>, usize)>)
    requires
        level <= LIBDEFLATE_MAX_LEVEL,
    ensures
        r is Some,
        r matches Some((buf, n)) ==> is_gzip_member(buf@.take(n as int)),
        r matches Some((buf, n)) ==> n <= buf@.len() && buf@.take(n as int) == gzip_encoded(
            data@,
            level,
        ),
        r matches Some((buf, n)) ==> gzip_decoded(buf@.take(n as int), data@.len() as usize)
            == Some(data@),
{
    let lvl = libdeflater::CompressionLvl::new(level as i32).ok()?;
    let mut compressor = libdeflater::Compressor::new(lvl);
    let mut out = vec![0u8; compressor.gzip_compress_bound(data.len())];
    let written = compressor.gzip_compress(data, &mut out).ok()?;
    Some((out, written))
}

/// Relies on libdeflater's Decompressor::new and gzip_decompress into a
/// buffer of `size` bytes: the buffer and how many of its bytes the stream
/// filled, or an error where the stream is invalid or its content does not
/// fit.
#[verifier::external_body]
fn gzip_decompress(data: &[u8], size: usize) -> (r: Option<(Vec<u8>, usize)>)
    requires
        size <= isize::MAX,
    ensures
        r matches Some((buf, n)) ==> n <= buf@.len() && gzip_decoded(data@, size) == Some(
            buf@.take(n as int),
        ),
        r is None ==> gzip_decoded(data@, size) is None,
{
    let mut decompressor = libdeflater::Decompressor::new();
    let mut out = vec![0u8; size];
    let written = decompressor.gzip_decompress(data, &mut out).ok()?;
    Some((out, written))
}

/// What a sized gzip frame holds: the gzip payload decoded into a buffer of
/// the size the header announces. A header that announces more than a buffer
/// can hold (`isize::MAX` bytes) makes the frame malformed.
pub open spec fn unframed(data: Seq<u8>) -> Option<Seq<u8>> {
    if data.len() < HEADER_LEN || le_value(data) > isize::MAX || le_value(data) > usize::MAX {
        None
    } else {
        gzip_decoded(data.skip(HEADER_LEN as int), le_value(data) as usize)
    }
}

/// Compresses `data` at `level`, which must lie in `0..=12`, into a sized
/// frame: its length as an eight-byte header, then the gzip stream. An
/// input longer than a header may announce is refused with `EncodeFailed`. The
/// header carries the size that decompression needs with the data itself.
pub fn compress(data: &[u8], level: u8) -> (r: Result<Vec<u8>, CodecError>)
    ensures
        level > LIBDEFLATE_MAX_LEVEL <==> r == Err::<Vec<u8>, CodecError>(CodecError::InvalidLevel),
        level <= LIBDEFLATE_MAX_LEVEL && data@.len() > isize::MAX ==> r == Err::<Vec<u8>, CodecError>(
            CodecError::EncodeFailed,
        ),
        level <= LIBDEFLATE_MAX_LEVEL && data@.len() <= isize::MAX ==> (r matches Ok(v) && v@ == framed(
            data@.len() as u64,
            gzip_encoded(data@, level),
        ) && is_gzip_member(v@.skip(HEADER_LEN as int)) && unframed(v@) == Some(data@)),
{
    if level > LIBDEFLATE_MAX_LEVEL {
        return Err(CodecError::InvalidLevel);
    }
    if data.len() > isize::MAX as usize {
        return Err(CodecError::EncodeFailed);
    }
    match gzip_compress(data, level) {
        Some((buf, n)) => {
            let mut stream = buf;
            stream.truncate(n);
            assert(stream@ == buf@.take(n as int));
            let out = write_frame(data.len() as u64, stream.as_slice());
            proof {
                lemma_frame_round_trip(data@.len() as u64, stream@);
            }
            Ok(out)
        },
        None => encoded(None),
    }
}

/// Restores the bytes of a sized gzip frame.
pub fn decompress(data: &[u8]) -> (r: Result<Vec<u8>, CodecError>)
    ensures
        decodes_to(r, unframed(data@)),
{
    match read_frame(data) {
        None => decoded(None),
        Some((size, payload)) => {
            if size > isize::MAX as u64 || size > usize::MAX as u64 {
                return decoded(None);
            }
            match gzip_decompress(payload, size as usize) {
                Some((buf, n)) => {
                    let mut out = buf;
                    out.truncate(n);
                    assert(out@ == buf@.take(n as int));
                    decoded(Some(out))
                },
                None => decoded(None),
            }
        },
    }
}

} // verus!
