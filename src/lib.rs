//! Harness for comparing allocation strategies and compression codecs on
//! deterministic workloads: workload generation, a registry of backends, a
//! runner that records one result per repetition, and round-trip checks.

pub mod workload;
pub mod heap;
pub mod arena;
pub mod bump;
pub mod scoped;
pub mod codec;
pub mod lz4;
pub mod miniz;
pub mod zlib_rs;
pub mod br_read;
pub mod br_write;
pub mod zstd_codec;
pub mod zune;
pub mod frame;
pub mod libdeflate;
pub mod backend;
pub mod registry;
pub mod harness;
