use vstd::prelude::*;

verus! {

/// The number of inner buffers per outer container in the fixed-shape probes.
pub const DEFAULT_FANOUT: usize = 5;

/// Whether `data` is the nested structure a workload describes: `iterations`
/// containers of `fanout` copies of `corpus` each.
pub open spec fn is_nested_copies(
    data: Seq<Seq<Seq<char>>>,
    corpus: Seq<char>,
    iterations: int,
    fanout: int,
) -> bool {
    &&& data.len() == iterations
    &&& forall|i: int| 0 <= i < iterations ==> #[trigger] data[i].len() == fanout
    &&& forall|i: int, j: int|
        0 <= i < iterations && 0 <= j < fanout ==> #[trigger] data[i][j] == corpus
}

pub open spec fn nested_view(data: Seq<Vec<String>>) -> Seq<Seq<Seq<char>>> {
    data.map_values(|inner: Vec<String>| inner@.map_values(|s: String| s@))
}

/// One container of `fanout` fresh heap copies of `corpus`.
fn fresh_copies(corpus: &str, fanout: usize) -> (r: Vec<String>)
    ensures
        r@.len() == fanout,
        forall|j: int| 0 <= j < fanout ==> #[trigger] r@[j]@ == corpus@,
{
    let mut inner: Vec<String> = Vec::new();
    let mut j: usize = 0;
    while j < fanout
        invariant
            j <= fanout,
            inner@.len() == j,
            forall|k: int| 0 <= k < j ==> #[trigger] inner@[k]@ == corpus@,
        decreases fanout - j,
    {
        inner.push(corpus.to_owned());
        j = j + 1;
    }
    inner
}

/// Builds the nested workload on the global heap, each string its own
/// allocation: `iterations` containers of `fanout` copies of `corpus`.
pub fn heap_workload(corpus: &str, iterations: usize, fanout: usize) -> (r: Vec<Vec<String>>)
    ensures
        is_nested_copies(nested_view(r@), corpus@, iterations as int, fanout as int),
{
    let mut data: Vec<Vec<String>> = Vec::new();
    let mut i: usize = 0;
    while i < iterations
        invariant
            i <= iterations,
            is_nested_copies(nested_view(data@), corpus@, i as int, fanout as int),
        decreases iterations - i,
    {
        let inner = fresh_copies(corpus, fanout);
        let ghost before = data@;
        let ghost added = inner@;
        data.push(inner);
        i = i + 1;
        proof {
            let v = nested_view(data@);
            let u = nested_view(before);
            assert forall|a: int| 0 <= a < i implies #[trigger] v[a] == (if a < i - 1 {
                u[a]
            } else {
                added.map_values(|s: String| s@)
            }) by {
                assert(data@[a] == if a < i - 1 { before[a] } else { data@[a] });
            }
            assert forall|a: int| 0 <= a < i implies #[trigger] v[a].len() == fanout by {
                assert(v[a] == (if a < i - 1 { u[a] } else { added.map_values(|s: String| s@) }));
            }
            assert forall|a: int, b: int| 0 <= a < i && 0 <= b < fanout implies #[trigger] v[a][b]
                == corpus@ by {
                assert(v[a] == (if a < i - 1 { u[a] } else { added.map_values(|s: String| s@) }));
            }
        }
    }
    data
}

/// Heap-allocation probe: builds `iterations` containers of five fresh copies
/// of `corpus` and returns how many containers were built.
pub fn allocation(corpus: &str, iterations: usize) -> (r: usize)
    ensures
        r == iterations,
{
    let data = heap_workload(corpus, iterations, DEFAULT_FANOUT);
    data.len()
}

/// The same probe as `allocation`, meant to be linked into a binary whose
/// global allocator is talc; the allocator is chosen by that binary, so the
/// workload here is the plain heap one.
pub fn talc_allocation(corpus: &str, iterations: usize) -> (r: usize)
    ensures
        r == iterations,
{
    let data = heap_workload(corpus, iterations, DEFAULT_FANOUT);
    data.len()
}

} // verus!
