use vstd::prelude::*;
use crate::codec::{decoded, decodes_to, opt_bytes, CodecError};

verus! {

/// The lowest level zstd accepts (its fastest setting) and the highest.
/// Level 0 selects zstd's default and is not part of the ordered range.
pub const ZSTD_MIN_LEVEL: i32 = -131072;
pub const ZSTD_MAX_LEVEL: i32 = 22;

/// The base-two logarithm of the window the encoder is set to.
pub const ZSTD_WINDOW_LOG: u32 = 22;

/// Whether `level` is one the encoder takes: `-131072..=-1` or `1..=22`.
pub open spec fn zstd_level_ok(level: i32) -> bool {
    ZSTD_MIN_LEVEL <= level <= ZSTD_MAX_LEVEL && level != 0
}

/// The zstd frame that the zstd crate makes of `data` at `level`, with
/// long-distance matching on and a window of `2^22` bytes.
pub uninterp spec fn zstd_encoded(data: Seq<u8>, level: i32) -> Seq<u8>;

/// What the zstd crate decodes from a sequence of zstd frames, if it is one.
pub uninterp spec fn zstd_decoded(data: Seq<u8>) -> Option<Seq<u8>>;

/// Relies on zstd::bulk::Compressor (new at `level`, set_parameter for
/// long-distance matching and a window log of `window_log`, compress into a
/// buffer of zstd's bound): one zstd frame whose window stays within what
/// zstd::stream::decode_all accepts, so it decodes back to `data`.
#[verifier::external_body]
fn zstd_compress(data: &[u8], level: i32, window_log: u32) -> (r: Option<Vec<u8>>)
    requires
        zstd_level_ok(level),
        window_log == ZSTD_WINDOW_LOG,
    ensures
        r is Some,
        r matches Some(v) ==> v@ == zstd_encoded(data@, level),
        r matches Some(v) ==> zstd_decoded(v@) == Some(data@),
{
    let mut compressor = zstd::bulk::Compressor::new(level).ok()?;
    compressor.set_parameter(zstd::stream::raw::CParameter::EnableLongDistanceMatching(true)).ok()?;
    compressor.set_parameter(zstd::stream::raw::CParameter::WindowLog(window_log)).ok()?;
    compressor.compress(data).ok()
}

/// Relies on zstd::stream::decode_all: the bytes the frames hold, or an error
/// where the input is not a zstd stream.
#[verifier::external_body]
fn zstd_decompress(data: &[u8]) -> (r: Option<Vec<u8>>)
    ensures
        opt_bytes(r) == zstd_decoded(data@),
{
    zstd::stream::decode_all(data).ok()
}

/// Decodes a zstd stream.
pub fn decompress(data: &[u8]) -> (r: Result<Vec<u8>, CodecError>)
    ensures
        decodes_to(r, zstd_decoded(data@)),
{
    decoded(zstd_decompress(data))
}

/// Encodes `data` as one zstd frame at `level`, which must lie in
/// `-131072..=-1` or `1..=22`, with long-distance matching on and a window
/// of `2^22` bytes.
pub fn compress(data: &[u8], level: i32) -> (r: Result<Vec<u8>, CodecError>)
    ensures
        !zstd_level_ok(level) <==> r == Err::<Vec<u8>, CodecError>(CodecError::InvalidLevel),
        zstd_level_ok(level) ==> (r matches Ok(v) && v@ == zstd_encoded(data@, level)
            && zstd_decoded(v@) == Some(data@)),
{
    if level < ZSTD_MIN_LEVEL || level > ZSTD_MAX_LEVEL || level == 0 {
        return Err(CodecError::InvalidLevel);
    }
    match zstd_compress(data, level, ZSTD_WINDOW_LOG) {
        Some(v) => Ok(v),
        None => Err(CodecError::EncodeFailed),
    }
}

} // verus!
