use vstd::prelude::*;
use crate::br_read::brotli_decoded;
use crate::br_write::{brotli_encoded, BROTLI_MAX_QUALITY, BROTLI_WINDOW_BITS};
use crate::codec::{decodes_to, CodecError};
use crate::libdeflate::{gzip_encoded, unframed, LIBDEFLATE_MAX_LEVEL};
use crate::lz4::{lz4_block, lz4_unblock};
use crate::miniz::{miniz_deflated, miniz_inflated, MINIZ_MAX_LEVEL};
use crate::workload::WorkloadDescriptor;
use crate::zlib_rs::{flate2_deflated, flate2_inflated, FLATE2_MAX_LEVEL};
use crate::zstd_codec::{zstd_decoded, zstd_encoded, ZSTD_MAX_LEVEL, ZSTD_MIN_LEVEL};
use crate::zune::zune_inflated;
use crate::frame::framed;

verus! {

/// A way of building and tearing down the nested allocation workload.
#[derive(Clone, Copy, Debug, PartialEq, Eq, Structural)]
pub enum AllocationBackend {
    /// Every string its own allocation on the global heap.
    Heap,
    /// Every string and vector in one bumpalo arena sized up front.
    Bumpalo,
    /// Every string and vector in one bump_scope arena that grows as needed.
    BumpScope,
}

/// What an allocation backend reports after one run.
#[derive(Clone, Copy, Debug, PartialEq, Eq, Structural)]
pub struct AllocationReport {
    pub final_container_count: usize,
}

impl AllocationBackend {
    /// Builds the workload afresh, releases it, and reports how many outer
    /// containers it held.
    pub fn run(&self, w: &WorkloadDescriptor) -> (r: AllocationReport)
        ensures
            r.final_container_count == w.iterations,
    {
        let count = match self {
            AllocationBackend::Heap => {
                let data = crate::heap::heap_workload(w.corpus.as_str(), w.iterations, w.fanout);
                data.len()
            },
            AllocationBackend::Bumpalo => crate::bump::bump_count(
                w.corpus.as_str(),
                w.iterations,
                w.fanout,
            ),
            AllocationBackend::BumpScope => crate::scoped::scoped_count(
                w.corpus.as_str(),
                w.iterations,
                w.fanout,
            ),
        };
        AllocationReport { final_container_count: count }
    }
}

/// A compression codec. The first six offer both directions; the last three
/// only decode.
#[derive(Clone, Copy, Debug, PartialEq, Eq, Structural)]
pub enum CodecBackend {
    /// LZ4 blocks with the length prepended (lz4_flex); its one level is 0.
    Lz4,
    /// Raw deflate (miniz_oxide), levels 0 to 10.
    Miniz,
    /// Raw deflate (flate2), levels 0 to 9.
    Zlib,
    /// Sized gzip frames (libdeflate), levels 0 to 12.
    Libdeflate,
    /// Brotli (brotli, brotli_decompressor), qualities 0 to 11.
    Brotli,
    /// Zstandard, levels -131072 to -1 and 1 to 22.
    Zstd,
    /// Brotli decoding only.
    BrotliRead,
    /// Zstandard decoding only.
    ZstdRead,
    /// Raw deflate decoding only (zune_inflate).
    Zune,
}

impl CodecBackend {
    /// The documented level range, lowest first, of a backend that encodes.
    pub open spec fn spec_level_range(self) -> Option<(int, int)> {
        match self {
            CodecBackend::Lz4 => Some((0, 0)),
            CodecBackend::Miniz => Some((0, MINIZ_MAX_LEVEL as int)),
            CodecBackend::Zlib => Some((0, FLATE2_MAX_LEVEL as int)),
            CodecBackend::Libdeflate => Some((0, LIBDEFLATE_MAX_LEVEL as int)),
            CodecBackend::Brotli => Some((0, BROTLI_MAX_QUALITY as int)),
            CodecBackend::Zstd => Some((ZSTD_MIN_LEVEL as int, ZSTD_MAX_LEVEL as int)),
            _ => None,
        }
    }

    pub open spec fn can_compress(self) -> bool {
        self.spec_level_range() is Some
    }

    /// Whether `level` is one the backend's encoder takes: a value of its
    /// range (for zstd, other than 0, which selects zstd's default).
    pub open spec fn valid_level(self, level: i32) -> bool {
        match self.spec_level_range() {
            Some((lo, hi)) => lo <= level <= hi && (self == CodecBackend::Zstd ==> level != 0),
            None => false,
        }
    }

    /// Whether the encoder can frame an input of this length: LZ4 records it
    /// in four bytes, libdeflate's frame header admits at most `isize::MAX`.
    pub open spec fn input_fits(self, data: Seq<u8>) -> bool {
        match self {
            CodecBackend::Lz4 => data.len() <= u32::MAX,
            CodecBackend::Libdeflate => data.len() <= isize::MAX,
            _ => true,
        }
    }

    /// What the backend's decoder makes of `data`.
    pub open spec fn spec_decode(self, data: Seq<u8>) -> Option<Seq<u8>> {
        match self {
            CodecBackend::Lz4 => lz4_unblock(data),
            CodecBackend::Miniz => miniz_inflated(data),
            CodecBackend::Zlib => flate2_inflated(data),
            CodecBackend::Libdeflate => unframed(data),
            CodecBackend::Brotli => brotli_decoded(data),
            CodecBackend::Zstd => zstd_decoded(data),
            CodecBackend::BrotliRead => brotli_decoded(data),
            CodecBackend::ZstdRead => zstd_decoded(data),
            CodecBackend::Zune => zune_inflated(data),
        }
    }

    /// What the backend's encoder makes of `data` at a valid `level`; empty
    /// for a backend that only decodes.
    pub open spec fn spec_encode(self, data: Seq<u8>, level: i32) -> Seq<u8> {
        match self {
            CodecBackend::Lz4 => lz4_block(data),
            CodecBackend::Miniz => miniz_deflated(data, level as u8),
            CodecBackend::Zlib => flate2_deflated(data, level as u8),
            CodecBackend::Libdeflate => framed(data.len() as u64, gzip_encoded(data, level as u8)),
            CodecBackend::Brotli => brotli_encoded(data, level, BROTLI_WINDOW_BITS),
            CodecBackend::Zstd => zstd_encoded(data, level),
            _ => Seq::empty(),
        }
    }

    /// The documented level range, lowest first, or `None` for a backend that
    /// only decodes.
    pub fn level_range(&self) -> (r: Option<(i32, i32)>)
        ensures
            match self.spec_level_range() {
                Some((lo, hi)) => r == Some((lo as i32, hi as i32)),
                None => r is None,
            },
    {
        match self {
            CodecBackend::Lz4 => Some((0, 0)),
            CodecBackend::Miniz => Some((0, MINIZ_MAX_LEVEL as i32)),
            CodecBackend::Zlib => Some((0, FLATE2_MAX_LEVEL as i32)),
            CodecBackend::Libdeflate => Some((0, LIBDEFLATE_MAX_LEVEL as i32)),
            CodecBackend::Brotli => Some((0, BROTLI_MAX_QUALITY)),
            CodecBackend::Zstd => Some((ZSTD_MIN_LEVEL, ZSTD_MAX_LEVEL)),
            _ => None,
        }
    }

    /// Encodes `data` at `level`. A backend that only decodes answers
    /// `Unsupported`; a level outside the documented range answers
    /// `InvalidLevel` before any work; whatever the encoder returns decodes
    /// back to `data`.
    pub fn compress(&self, data: &[u8], level: i32) -> (r: Result<Vec<u8>, CodecError>)
        ensures
            !self.can_compress() ==> r == Err::<Vec<u8>, CodecError>(CodecError::Unsupported),
            self.can_compress() && !self.valid_level(level) ==> r == Err::<Vec<u8>, CodecError>(
                CodecError::InvalidLevel,
            ),
            self.valid_level(level) && !self.input_fits(data@) ==> r == Err::<Vec<u8>, CodecError>(
                CodecError::EncodeFailed,
            ),
            self.valid_level(level) && self.input_fits(data@) ==> (r matches Ok(v) && v@
                == self.spec_encode(data@, level) && self.spec_decode(v@) == Some(data@)),
    {
        match self {
            CodecBackend::Lz4 => {
                if level != 0 {
                    Err(CodecError::InvalidLevel)
                } else if data.len() > u32::MAX as usize {
                    Err(CodecError::EncodeFailed)
                } else {
                    Ok(crate::lz4::compress(data))
                }
            },
            CodecBackend::Miniz => {
                if level < 0 || level > MINIZ_MAX_LEVEL as i32 {
                    Err(CodecError::InvalidLevel)
                } else {
                    crate::miniz::compress(data, level as u8)
                }
            },
            CodecBackend::Zlib => {
                if level < 0 || level > FLATE2_MAX_LEVEL as i32 {
                    Err(CodecError::InvalidLevel)
                } else {
                    crate::zlib_rs::compress_bench(data, level as u8)
                }
            },
            CodecBackend::Libdeflate => {
                if level < 0 || level > LIBDEFLATE_MAX_LEVEL as i32 {
                    Err(CodecError::InvalidLevel)
                } else {
                    crate::libdeflate::compress(data, level as u8)
                }
            },
            CodecBackend::Brotli => crate::br_write::compress(data, level),
            CodecBackend::Zstd => crate::zstd_codec::compress(data, level),
            _ => Err(CodecError::Unsupported),
        }
    }

    /// Decodes `data` with the backend's decoder.
    pub fn decompress(&self, data: &[u8]) -> (r: Result<Vec<u8>, CodecError>)
        ensures
            decodes_to(r, self.spec_decode(data@)),
    {
        match self {
            CodecBackend::Lz4 => crate::lz4::decompress(data),
            CodecBackend::Miniz => crate::miniz::decompress(data),
            CodecBackend::Zlib => crate::zlib_rs::decompress_bench(data),
            CodecBackend::Libdeflate => crate::libdeflate::decompress(data),
            CodecBackend::Brotli => crate::br_read::decompress(data),
            CodecBackend::Zstd => crate::zstd_codec::decompress(data),
            CodecBackend::BrotliRead => crate::br_read::decompress(data),
            CodecBackend::ZstdRead => crate::zstd_codec::decompress(data),
            CodecBackend::Zune => crate::zune::decompress(data),
        }
    }

    /// Encodes `data` and decodes the result: where the encoder succeeds, the
    /// decoder does too and gives back exactly `data`.
    pub fn round_trip(&self, data: &[u8], level: i32) -> (r: Result<Vec<u8>, CodecError>)
        ensures
            r matches Ok(v) ==> v@ == data@,
            !self.can_compress() ==> r == Err::<Vec<u8>, CodecError>(CodecError::Unsupported),
            self.can_compress() && !self.valid_level(level) ==> r == Err::<Vec<u8>, CodecError>(
                CodecError::InvalidLevel,
            ),
            self.valid_level(level) && !self.input_fits(data@) ==> r == Err::<Vec<u8>, CodecError>(
                CodecError::EncodeFailed,
            ),
            self.valid_level(level) && self.input_fits(data@) ==> r is Ok,
    {
        let compressed = self.compress(data, level)?;
        self.decompress(compressed.as_slice())
    }
}

/// A registered backend: one of the two capability sets.
#[derive(Clone, Copy, Debug, PartialEq, Eq, Structural)]
pub enum Backend {
    Allocation(AllocationBackend),
    Codec(CodecBackend),
}

} // verus!
