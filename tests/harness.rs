use probe_bench::arena::next_pow2;
use probe_bench::backend::{AllocationBackend, Backend, CodecBackend};
use probe_bench::bump::{arena_capacity, bump_allocation};
use probe_bench::codec::CodecError;
use probe_bench::frame::{read_frame, write_frame};
use probe_bench::harness::{
    run_all, run_once, verify_allocation, verify_round_trip, FailReason, RunConfig, Verification,
};
use probe_bench::heap::{allocation, talc_allocation};
use probe_bench::registry::{Registry, RegistryError};
use probe_bench::workload::generate;
use probe_bench::{br_read, br_write, libdeflate, lz4, miniz, zlib_rs, zstd_codec, zune};

const ALL_CODECS: [CodecBackend; 6] = [
    CodecBackend::Lz4,
    CodecBackend::Miniz,
    CodecBackend::Zlib,
    CodecBackend::Libdeflate,
    CodecBackend::Brotli,
    CodecBackend::Zstd,
];

#[test]
fn hello_three_iterations_fanout_five() {
    let w = generate("hello", 3, 5);
    assert_eq!(w.total_buffers(), Some(15));
    assert_eq!(AllocationBackend::Heap.run(&w).final_container_count, 3);
    assert_eq!(AllocationBackend::Bumpalo.run(&w).final_container_count, 3);
    assert_eq!(AllocationBackend::BumpScope.run(&w).final_container_count, 3);
}

#[test]
fn probes_count_containers() {
    assert_eq!(allocation("hello", 3), 3);
    assert_eq!(talc_allocation("hello", 7), 7);
    assert_eq!(bump_allocation("hello", 4), 4);
    assert_eq!(allocation("", 0), 0);
    assert_eq!(bump_allocation("", 0), 0);
    assert_eq!(probe_bench::scoped::bump_allocation("hello", 6), 6);
}

#[test]
fn allocation_count_matches_iterations() {
    for it in [0usize, 1, 2, 17, 100] {
        let w = generate("corpus text", it, 3);
        assert_eq!(AllocationBackend::Heap.run(&w).final_container_count, it);
        assert_eq!(AllocationBackend::Bumpalo.run(&w).final_container_count, it);
        assert_eq!(AllocationBackend::BumpScope.run(&w).final_container_count, it);
    }
}

#[test]
fn total_buffers_overflow_is_none() {
    let w = generate("x", usize::MAX, 2);
    assert_eq!(w.total_buffers(), None);
}

#[test]
fn four_bytes_round_trip_at_minimum_level() {
    let buf = [0x00u8, 0x01, 0x02, 0x03];
    for c in ALL_CODECS {
        let (lo, _) = c.level_range().unwrap();
        let out = c.round_trip(&buf, lo).unwrap();
        assert_eq!(out, buf.to_vec(), "{:?}", c);
    }
}

#[test]
fn round_trip_every_level_and_empty() {
    let text = b"the quick brown fox jumps over the lazy dog, the quick brown fox".to_vec();
    for c in ALL_CODECS {
        let (lo, hi) = c.level_range().unwrap();
        for level in lo..=hi.min(lo + 12) {
            assert_eq!(c.round_trip(&text, level).unwrap(), text, "{:?} {}", c, level);
            assert_eq!(c.round_trip(&[], level).unwrap(), Vec::<u8>::new(), "{:?} {}", c, level);
        }
    }
}

#[test]
fn invalid_levels_are_refused() {
    let buf = [1u8, 2, 3];
    assert_eq!(CodecBackend::Lz4.compress(&buf, 1), Err(CodecError::InvalidLevel));
    assert_eq!(CodecBackend::Miniz.compress(&buf, 11), Err(CodecError::InvalidLevel));
    assert_eq!(CodecBackend::Miniz.compress(&buf, -1), Err(CodecError::InvalidLevel));
    assert_eq!(CodecBackend::Zlib.compress(&buf, 10), Err(CodecError::InvalidLevel));
    assert_eq!(CodecBackend::Libdeflate.compress(&buf, 13), Err(CodecError::InvalidLevel));
    assert_eq!(CodecBackend::Brotli.compress(&buf, 12), Err(CodecError::InvalidLevel));
    assert_eq!(CodecBackend::Zstd.compress(&buf, 0), Err(CodecError::InvalidLevel));
    assert_eq!(CodecBackend::Zstd.compress(&buf, 23), Err(CodecError::InvalidLevel));
    assert_eq!(miniz::compress(&buf, 11), Err(CodecError::InvalidLevel));
    assert_eq!(zlib_rs::compress_bench(&buf, 10), Err(CodecError::InvalidLevel));
    assert_eq!(libdeflate::compress(&buf, 13), Err(CodecError::InvalidLevel));
    assert_eq!(br_write::compress(&buf, -1), Err(CodecError::InvalidLevel));
    assert_eq!(zstd_codec::compress(&buf, 23), Err(CodecError::InvalidLevel));
}

#[test]
fn decode_only_backends_refuse_to_encode() {
    for c in [CodecBackend::BrotliRead, CodecBackend::ZstdRead, CodecBackend::Zune] {
        assert_eq!(c.level_range(), None);
        assert_eq!(c.compress(&[1, 2], 0), Err(CodecError::Unsupported));
    }
}

#[test]
fn malformed_input_is_reported() {
    let junk = [0xffu8; 16];
    assert_eq!(lz4::decompress(&[3, 0, 0, 0, 0xff, 0xff]), Err(CodecError::Malformed));
    assert_eq!(miniz::decompress(&junk), Err(CodecError::Malformed));
    assert_eq!(zlib_rs::decompress_bench(&junk), Err(CodecError::Malformed));
    assert_eq!(libdeflate::decompress(&junk[..4]), Err(CodecError::Malformed));
    assert_eq!(br_read::decompress(&junk), Err(CodecError::Malformed));
    assert_eq!(zstd_codec::decompress(&junk), Err(CodecError::Malformed));
    assert_eq!(zune::decompress(&junk), Err(CodecError::Malformed));
    assert_eq!(miniz::twiddle_compressed(&junk), Err(CodecError::Malformed));
}

#[test]
fn decoders_read_what_encoders_wrote() {
    let text = b"abcabcabcabcabcabcabcabc".to_vec();
    let deflated = miniz::compress(&text, 6).unwrap();
    assert_ne!(deflated, text);
    assert_eq!(zune::decompress(&deflated).unwrap(), text);
    assert_eq!(zlib_rs::decompress_bench(&deflated).unwrap(), text);
    let flate = zlib_rs::compress_bench(&text, 6).unwrap();
    assert_ne!(flate, text);
    assert_eq!(miniz::decompress(&flate).unwrap(), text);
    let br = br_write::compress(&text, 5).unwrap();
    assert_ne!(br, text);
    assert_eq!(CodecBackend::BrotliRead.decompress(&br).unwrap(), text);
    let zs = zstd_codec::compress(&text, 3).unwrap();
    assert_ne!(zs, text);
    assert_eq!(CodecBackend::ZstdRead.decompress(&zs).unwrap(), text);
}

#[test]
fn lz4_block_starts_with_length() {
    let text = b"hello hello hello".to_vec();
    let block = lz4::compress(&text);
    assert_eq!(&block[..4], &(text.len() as u32).to_le_bytes());
    assert_eq!(lz4::decompress(&block).unwrap(), text);
}

#[test]
fn libdeflate_frame_carries_length() {
    let text = vec![7u8; 300];
    let frame = libdeflate::compress(&text, 6).unwrap();
    assert_eq!(&frame[..8], &300u64.to_le_bytes());
    assert_eq!(&frame[8..10], &[0x1f, 0x8b]);
    assert_eq!(libdeflate::decompress(&frame).unwrap(), text);
}

#[test]
fn frame_header_round_trip() {
    let f = write_frame(0x0102030405060708, &[9, 9]);
    assert_eq!(f, vec![8, 7, 6, 5, 4, 3, 2, 1, 9, 9]);
    let (size, payload) = read_frame(&f).unwrap();
    assert_eq!(size, 0x0102030405060708);
    assert_eq!(payload, &[9, 9]);
    assert!(read_frame(&[1, 2, 3]).is_none());
}

#[test]
fn twiddle_folds_xor() {
    assert_eq!(miniz::twiddle_uncompressed(&[]), 0xa0);
    assert_eq!(miniz::twiddle_uncompressed(&[0x01, 0x02]), 0xa3);
    let deflated = miniz::compress(&[0x01, 0x02, 0xa0], 1).unwrap();
    assert_eq!(miniz::twiddle_compressed(&deflated), Ok(0x03));
}

#[test]
fn next_power_of_two_values() {
    assert_eq!(next_pow2(0), Some(1));
    assert_eq!(next_pow2(1), Some(1));
    assert_eq!(next_pow2(5), Some(8));
    assert_eq!(next_pow2(64), Some(64));
    assert_eq!(next_pow2(usize::MAX), None);
}

#[test]
fn arena_capacity_is_power_of_two_above_bytes() {
    let c = arena_capacity(5, 3, 5).unwrap();
    assert!(c.is_power_of_two());
    let slice = std::mem::size_of::<&str>();
    let row = std::mem::size_of::<bumpalo::collections::Vec<&str>>();
    let table = std::mem::size_of::<bumpalo::collections::Vec<bumpalo::collections::Vec<&str>>>();
    let bytes = slice * 5 * 3 * 5 + row * 3 + table;
    assert_eq!(c, bytes.next_power_of_two());
    assert_eq!(arena_capacity(usize::MAX, 0, 5), Some(table.next_power_of_two()));
    assert_eq!(arena_capacity(usize::MAX, 2, 5), None);
}

#[test]
fn duplicate_registration_keeps_first() {
    let mut r = Registry::new();
    assert_eq!(r.register("heap", Backend::Allocation(AllocationBackend::Heap)), Ok(()));
    assert_eq!(
        r.register("heap", Backend::Codec(CodecBackend::Lz4)),
        Err(RegistryError::DuplicateBackend)
    );
    assert_eq!(r.get("heap"), Ok(Backend::Allocation(AllocationBackend::Heap)));
    assert_eq!(r.list(), vec!["heap".to_string()]);
}

#[test]
fn unknown_backend_lookup_fails() {
    let mut r = Registry::new();
    assert_eq!(r.get("zstd"), Err(RegistryError::UnknownBackend));
    r.register("lz4", Backend::Codec(CodecBackend::Lz4)).unwrap();
    r.register("zstd", Backend::Codec(CodecBackend::Zstd)).unwrap();
    assert_eq!(r.get("zstd"), Ok(Backend::Codec(CodecBackend::Zstd)));
    assert_eq!(r.get("brotli"), Err(RegistryError::UnknownBackend));
    assert_eq!(r.list(), vec!["lz4".to_string(), "zstd".to_string()]);
}

fn config(repetitions: usize, level: i32) -> RunConfig {
    RunConfig { repetitions, level, verify: true, warmup: true }
}

#[test]
fn run_once_records_each_repetition() {
    let mut r = Registry::new();
    r.register("heap", Backend::Allocation(AllocationBackend::Heap)).unwrap();
    r.register("miniz", Backend::Codec(CodecBackend::Miniz)).unwrap();
    r.register("zune", Backend::Codec(CodecBackend::Zune)).unwrap();
    let w = generate("hello hello hello", 3, 5);
    let res = run_once(&r, "heap", &w, config(4, 0)).unwrap();
    assert_eq!(res.len(), 4);
    assert!(res[0].warmup && !res[1].warmup);
    for x in &res {
        assert_eq!(x.backend_id, "heap");
        assert_eq!(x.output_size, 3);
        assert_eq!(x.verification, Verification::Pass);
    }
    let res = run_once(&r, "miniz", &w, config(3, 6)).unwrap();
    assert_eq!(res.len(), 3);
    assert!(res.iter().all(|x| x.verification == Verification::Pass));
    let res = run_once(&r, "miniz", &w, config(2, 42)).unwrap();
    assert_eq!(res.len(), 2);
    assert!(res
        .iter()
        .all(|x| x.verification == Verification::Fail(FailReason::Invocation(CodecError::InvalidLevel))));
    let res = run_once(&r, "zune", &w, config(2, 0)).unwrap();
    assert_eq!(res.len(), 2);
    assert!(res
        .iter()
        .all(|x| x.verification == Verification::Fail(FailReason::Invocation(CodecError::Malformed))));
    assert_eq!(run_once(&r, "nope", &w, config(2, 0)).err(), Some(RegistryError::UnknownBackend));
    assert_eq!(run_once(&r, "heap", &w, config(0, 0)).unwrap().len(), 0);
}

#[test]
fn verifier_reports_mismatches() {
    assert_eq!(verify_round_trip(&[1, 2, 3], &[1, 2, 3]), Verification::Pass);
    assert_eq!(
        verify_round_trip(&[1, 2, 3], &[1, 2, 4]),
        Verification::Fail(FailReason::ContentMismatch)
    );
    assert_eq!(verify_round_trip(&[1, 2], &[1, 2, 3]), Verification::Fail(FailReason::ContentMismatch));
    let w = generate("a", 2, 1);
    let good = AllocationBackend::Heap.run(&w);
    assert_eq!(verify_allocation(&w, &good), Verification::Pass);
    let bad = probe_bench::backend::AllocationReport { final_container_count: 1 };
    assert_eq!(verify_allocation(&w, &bad), Verification::Fail(FailReason::CountMismatch));
}

#[test]
fn run_all_groups_by_backend_in_order() {
    let mut r = Registry::new();
    r.register("bump", Backend::Allocation(AllocationBackend::Bumpalo)).unwrap();
    r.register("lz4", Backend::Codec(CodecBackend::Lz4)).unwrap();
    r.register("scope", Backend::Allocation(AllocationBackend::BumpScope)).unwrap();
    let w = generate("abcabc", 2, 4);
    let groups = run_all(&r, &w, RunConfig { repetitions: 3, level: 0, verify: true, warmup: false });
    assert_eq!(groups.len(), 3);
    let names = ["bump", "lz4", "scope"];
    for (g, name) in groups.iter().zip(names) {
        assert_eq!(g.len(), 3);
        for x in g {
            assert_eq!(x.backend_id, name);
            assert_eq!(x.verification, Verification::Pass);
            assert!(!x.warmup);
        }
    }
    assert_eq!(groups[1][0].output_size, probe_bench::lz4::compress(b"abcabc").len());
}

#[test]
fn zstd_takes_negative_levels_but_not_zero() {
    let buf = [0x00u8, 0x01, 0x02, 0x03];
    assert_eq!(CodecBackend::Zstd.level_range(), Some((-131072, 22)));
    assert_eq!(CodecBackend::Zstd.round_trip(&buf, -131072).unwrap(), buf.to_vec());
    assert_eq!(CodecBackend::Zstd.round_trip(&buf, -5).unwrap(), buf.to_vec());
    assert_eq!(zstd_codec::compress(&buf, 0), Err(CodecError::InvalidLevel));
    assert_eq!(zstd_codec::compress(&buf, -131073), Err(CodecError::InvalidLevel));
    let a = zstd_codec::compress(&buf, 3).unwrap();
    let b = zstd_codec::compress(&buf, 3).unwrap();
    assert_eq!(a, b);
}

#[test]
fn oversized_frame_header_is_malformed() {
    let mut frame = u64::MAX.to_le_bytes().to_vec();
    frame.push(0);
    assert_eq!(libdeflate::decompress(&frame), Err(CodecError::Malformed));
    let mut frame = (1u64 << 63).to_le_bytes().to_vec();
    frame.extend_from_slice(&[0x1f, 0x8b]);
    assert_eq!(libdeflate::decompress(&frame), Err(CodecError::Malformed));
}

#[test]
fn arena_workloads_hold_nested_copies() {
    let bump = bumpalo::Bump::new();
    let table = probe_bench::bump::bump_workload(&bump, "hello", 3, 5);
    assert_eq!(table.len(), 3);
    for row in table.iter() {
        assert_eq!(row.len(), 5);
        assert!(row.iter().all(|s| *s == "hello"));
    }
    assert_eq!(probe_bench::bump::bump_count("hi", 4, 2), 4);
    assert_eq!(probe_bench::scoped::scoped_count("hi", 4, 2), 4);
    let built = probe_bench::heap::heap_workload("hello", 3, 5);
    assert_eq!(built.len(), 3);
    assert!(built.iter().all(|r| r.len() == 5 && r.iter().all(|s| s == "hello")));
}

#[test]
fn encoders_succeed_on_empty_input_at_every_level() {
    for level in 0..=9u8 {
        let c = zlib_rs::compress_bench(&[], level).unwrap();
        assert_eq!(zlib_rs::decompress_bench(&c).unwrap(), Vec::<u8>::new());
    }
    for level in 0..=12u8 {
        let c = libdeflate::compress(&[], level).unwrap();
        assert_eq!(libdeflate::decompress(&c).unwrap(), Vec::<u8>::new());
    }
    for q in 0..=11 {
        let c = br_write::compress(&[], q).unwrap();
        assert_eq!(br_read::decompress(&c).unwrap(), Vec::<u8>::new());
    }
}

#[test]
fn twiddle_of_concatenation() {
    let a = [0x12u8, 0x34];
    let b = [0x56u8, 0x78, 0x9a];
    let ab = [0x12u8, 0x34, 0x56, 0x78, 0x9a];
    assert_eq!(
        miniz::twiddle_uncompressed(&ab),
        miniz::twiddle_uncompressed(&a) ^ miniz::twiddle_uncompressed(&b) ^ 0xa0
    );
}
