use vstd::prelude::*;
use crate::backend::{AllocationBackend, AllocationReport, Backend, CodecBackend};
use crate::codec::CodecError;
use crate::registry::{lookup, Registry, RegistryError};
use crate::workload::WorkloadDescriptor;

verus! {

#[verifier::external_type_specification]
#[verifier::external_body]
pub struct ExInstant(std::time::Instant);

/// Relies on std::time::Instant::now: a reading of the monotonic clock.
#[verifier::external_body]
fn clock_now() -> (r: std::time::Instant) {
    std::time::Instant::now()
}

/// Relies on std::time::Instant::elapsed: the time since `start`, never
/// negative on a monotonic clock.
#[verifier::external_body]
fn clock_elapsed(start: &std::time::Instant) -> (r: std::time::Duration) {
    start.elapsed()
}

/// Relies on std::time::Duration::as_nanos: the duration in nanoseconds.
#[verifier::external_body]
fn duration_nanos(d: &std::time::Duration) -> (r: u128) {
    d.as_nanos()
}

/// Nanoseconds since `start`.
fn nanos_since(start: &std::time::Instant) -> (r: u128) {
    let d = clock_elapsed(start);
    duration_nanos(&d)
}

/// Why a repetition failed.
#[derive(Clone, Copy, Debug, PartialEq, Eq, Structural)]
pub enum FailReason {
    /// The allocation backend reported another number of containers than
    /// the workload has iterations.
    CountMismatch,
    /// The decoded bytes differ from the input.
    ContentMismatch,
    /// The backend itself reported an error.
    Invocation(CodecError),
}

/// The outcome of checking one repetition.
#[derive(Clone, Copy, Debug, PartialEq, Eq, Structural)]
pub enum Verification {
    Pass,
    Fail(FailReason),
    /// Checking was switched off for this run.
    Skipped,
}

/// Byte-exact comparison of a decoded buffer with the input it came from.
pub fn verify_round_trip(input: &[u8], decompressed: &[u8]) -> (r: Verification)
    ensures
        input@ == decompressed@ <==> r == Verification::Pass,
        input@ != decompressed@ <==> r == Verification::Fail(FailReason::ContentMismatch),
{
    if input.len() != decompressed.len() {
        return Verification::Fail(FailReason::ContentMismatch);
    }
    let mut i: usize = 0;
    while i < input.len()
        invariant
            i <= input@.len(),
            input@.len() == decompressed@.len(),
            forall|k: int| 0 <= k < i ==> input@[k] == decompressed@[k],
        decreases input@.len() - i,
    {
        if input[i] != decompressed[i] {
            return Verification::Fail(FailReason::ContentMismatch);
        }
        i = i + 1;
    }
    assert(input@ =~= decompressed@);
    Verification::Pass
}

/// An allocation run passes when it built one container per iteration.
pub fn verify_allocation(w: &WorkloadDescriptor, report: &AllocationReport) -> (r: Verification)
    ensures
        report.final_container_count == w.iterations <==> r == Verification::Pass,
        report.final_container_count != w.iterations <==> r == Verification::Fail(
            FailReason::CountMismatch,
        ),
{
    if report.final_container_count == w.iterations {
        Verification::Pass
    } else {
        Verification::Fail(FailReason::CountMismatch)
    }
}

/// How one run is carried out.
#[derive(Clone, Copy, Debug, PartialEq, Eq, Structural)]
pub struct RunConfig {
    /// How many repetitions to run.
    pub repetitions: usize,
    /// The level handed to a codec's encoder.
    pub level: i32,
    /// Whether each repetition's output is checked.
    pub verify: bool,
    /// Whether the first repetition is flagged as a warm-up.
    pub warmup: bool,
}

/// One record per repetition.
pub struct RunResult {
    pub backend_id: String,
    /// Nanoseconds of the whole repetition.
    pub elapsed_nanos: u128,
    /// Nanoseconds spent encoding (codec backends that encode).
    pub compress_nanos: u128,
    /// Nanoseconds spent decoding (codec backends).
    pub decompress_nanos: u128,
    /// Containers built (allocation), encoded bytes (round trip) or decoded
    /// bytes (decoding only).
    pub output_size: usize,
    pub verification: Verification,
    /// Set on the first repetition of a run configured with a warm-up.
    pub warmup: bool,
}

/// The verification an allocation repetition records.
pub open spec fn allocation_verdict(verify: bool) -> Verification {
    if verify {
        Verification::Pass
    } else {
        Verification::Skipped
    }
}

/// One repetition of an allocation backend.
pub fn run_allocation_once(
    id: &str,
    backend: AllocationBackend,
    w: &WorkloadDescriptor,
    verify: bool,
) -> (r: RunResult)
    ensures
        r.backend_id@ == id@,
        r.output_size == w.iterations,
        r.verification == allocation_verdict(verify),
{
    let start = clock_now();
    let report = backend.run(w);
    let elapsed = nanos_since(&start);
    let verification = if verify {
        verify_allocation(w, &report)
    } else {
        Verification::Skipped
    };
    RunResult {
        backend_id: id.to_owned(),
        elapsed_nanos: elapsed,
        compress_nanos: 0,
        decompress_nanos: 0,
        output_size: report.final_container_count,
        verification,
        warmup: false,
    }
}

/// The verifications a codec repetition may record: a content mismatch is
/// never among them, since whatever an encoder returns decodes back.
pub open spec fn codec_verdict_ok(v: Verification, verify: bool) -> bool {
    match v {
        Verification::Pass => verify,
        Verification::Skipped => !verify,
        Verification::Fail(FailReason::Invocation(_)) => true,
        Verification::Fail(_) => false,
    }
}

/// One repetition of a codec backend: encode then decode the input where the
/// backend encodes, or decode it where it only decodes.
pub fn run_codec_once(id: &str, backend: CodecBackend, input: &[u8], level: i32, verify: bool) -> (r:
    RunResult)
    ensures
        r.backend_id@ == id@,
        codec_verdict_ok(r.verification, verify),
        backend.can_compress() && !backend.valid_level(level) ==> r.verification
            == Verification::Fail(FailReason::Invocation(CodecError::InvalidLevel)),
        !backend.can_compress() ==> (backend.spec_decode(input@) is None <==> r.verification
            == Verification::Fail(FailReason::Invocation(CodecError::Malformed))),
        backend.valid_level(level) && backend.input_fits(input@) ==> r.output_size
            == backend.spec_encode(input@, level).len() && r.verification == (if verify {
            Verification::Pass
        } else {
            Verification::Skipped
        }),
{
    let start = clock_now();
    let mut result = RunResult {
        backend_id: id.to_owned(),
        elapsed_nanos: 0,
        compress_nanos: 0,
        decompress_nanos: 0,
        output_size: 0,
        verification: if verify {
            Verification::Pass
        } else {
            Verification::Skipped
        },
        warmup: false,
    };
    if let Some(_) = backend.level_range() {
        let compressed = backend.compress(input, level);
        result.compress_nanos = nanos_since(&start);
        match compressed {
            Err(e) => {
                result.verification = Verification::Fail(FailReason::Invocation(e));
            },
            Ok(c) => {
                result.output_size = c.len();
                let mid = clock_now();
                let restored = backend.decompress(c.as_slice());
                result.decompress_nanos = nanos_since(&mid);
                match restored {
                    Err(e) => {
                        result.verification = Verification::Fail(FailReason::Invocation(e));
                    },
                    Ok(d) => {
                        if verify {
                            result.verification = verify_round_trip(input, d.as_slice());
                        }
                    },
                }
            },
        }
    } else {
        let restored = backend.decompress(input);
        result.decompress_nanos = nanos_since(&start);
        match restored {
            Err(e) => {
                result.verification = Verification::Fail(FailReason::Invocation(e));
            },
            Ok(d) => {
                result.output_size = d.len();
            },
        }
    }
    result.elapsed_nanos = nanos_since(&start);
    result
}

/// Runs the backend registered under `id` for `config.repetitions`
/// repetitions, one after another, on the workload: an allocation backend
/// builds it, a codec backend takes the corpus bytes as input. A failing
/// repetition is recorded and the others still run.
pub fn run_once(registry: &Registry, id: &str, w: &WorkloadDescriptor, config: RunConfig) -> (r:
    Result<Vec<RunResult>, RegistryError>)
    requires
        registry.wf(),
    ensures
        lookup(registry@, id@) is None <==> r == Err::<Vec<RunResult>, RegistryError>(
            RegistryError::UnknownBackend,
        ),
        r is Err ==> r == Err::<Vec<RunResult>, RegistryError>(RegistryError::UnknownBackend),
        r matches Ok(v) ==> v@.len() == config.repetitions,
        r matches Ok(v) ==> forall|i: int| 0 <= i < v@.len() ==> (#[trigger] v@[i]).backend_id@ == id@
            && v@[i].warmup == (config.warmup && i == 0),
        r matches Ok(v) ==> forall|i: int| 0 <= i < v@.len() ==> match lookup(registry@, id@) {
            Some(Backend::Allocation(_)) => (#[trigger] v@[i]).verification == allocation_verdict(
                config.verify,
            ) && v@[i].output_size == w.iterations,
            Some(Backend::Codec(_)) => codec_verdict_ok(v@[i].verification, config.verify),
            None => false,
        },
{
    let backend = match registry.get(id) {
        Ok(b) => b,
        Err(e) => {
            return Err(e);
        },
    };
    let mut results: Vec<RunResult> = Vec::new();
    let mut i: usize = 0;
    while i < config.repetitions
        invariant
            i <= config.repetitions,
            results@.len() == i,
            lookup(registry@, id@) == Some(backend),
            forall|k: int| 0 <= k < i ==> (#[trigger] results@[k]).backend_id@ == id@
                && results@[k].warmup == (config.warmup && k == 0),
            forall|k: int| 0 <= k < i ==> match backend {
                Backend::Allocation(_) => (#[trigger] results@[k]).verification
                    == allocation_verdict(config.verify) && results@[k].output_size
                    == w.iterations,
                Backend::Codec(_) => codec_verdict_ok(results@[k].verification, config.verify),
            },
        decreases config.repetitions - i,
    {
        let mut result = match backend {
            Backend::Allocation(a) => run_allocation_once(id, a, w, config.verify),
            Backend::Codec(c) => run_codec_once(id, c, w.corpus.as_str().as_bytes(), config.level, config.verify),
        };
        result.warmup = config.warmup && i == 0;
        results.push(result);
        i = i + 1;
    }
    Ok(results)
}

/// Runs every registered backend in order of registration, all
/// repetitions of one backend before the next begins, and returns one group
/// of results per backend.
pub fn run_all(registry: &Registry, w: &WorkloadDescriptor, config: RunConfig) -> (r: Vec<
    Vec<RunResult>,
>)
    requires
        registry.wf(),
    ensures
        r@.len() == registry@.len(),
        forall|i: int| 0 <= i < r@.len() ==> (#[trigger] r@[i])@.len() == config.repetitions,
        forall|i: int, j: int|
            0 <= i < r@.len() && 0 <= j < r@[i]@.len() ==> (#[trigger] r@[i]@[j]).backend_id@
                == registry@[i].0,
{
    let ids = registry.list();
    let mut groups: Vec<Vec<RunResult>> = Vec::new();
    let mut i: usize = 0;
    while i < ids.len()
        invariant
            i <= ids@.len(),
            ids@.len() == registry@.len(),
            forall|k: int| 0 <= k < ids@.len() ==> (#[trigger] ids@[k])@ == registry@[k].0,
            registry.wf(),
            groups@.len() == i,
            forall|k: int| 0 <= k < i ==> (#[trigger] groups@[k])@.len() == config.repetitions,
            forall|k: int, j: int|
                0 <= k < i && 0 <= j < groups@[k]@.len() ==> (#[trigger] groups@[k]@[j]).backend_id@
                    == registry@[k].0,
        decreases ids@.len() - i,
    {
        let id = ids[i].as_str();
        proof {
            assert(registry@[i as int].0 == id@);
        }
        match run_once(registry, id, w, config) {
            Ok(results) => {
                groups.push(results);
            },
            Err(_) => {
                // Every listed id is registered, so this arm is never taken.
                proof {
                    assert(crate::registry::has_id(registry@, id@));
                    assert(lookup(registry@, id@) is Some);
                }
                groups.push(Vec::new());
            },
        }
        i = i + 1;
    }
    groups
}

} // verus!
