use vstd::prelude::*;
use crate::arena::{is_next_pow2, next_pow2};
use crate::heap::{is_nested_copies, DEFAULT_FANOUT};

verus! {

#[verifier::external_type_specification]
#[verifier::external_body]
pub struct ExBump<const MIN_ALIGN: usize>(bumpalo::Bump<MIN_ALIGN>);

#[verifier::external_type_specification]
#[verifier::external_body]
#[verifier::reject_recursive_types(T)]
pub struct ExBumpVec<'bump, T>(bumpalo::collections::Vec<'bump, T>);

/// The strings held by one arena vector of string slices.
pub uninterp spec fn bump_row(v: bumpalo::collections::Vec<&str>) -> Seq<Seq<char>>;

/// The rows held by one arena vector of rows.
pub uninterp spec fn bump_table(
    v: bumpalo::collections::Vec<bumpalo::collections::Vec<&str>>,
) -> Seq<Seq<Seq<char>>>;

/// Relies on bumpalo::Bump::with_capacity: a fresh arena with room for at
/// least `capacity` bytes before it grows.
#[verifier::external_body]
fn arena_with_capacity(capacity: usize) -> (r: bumpalo::Bump) {
    bumpalo::Bump::with_capacity(capacity)
}

/// Relies on bumpalo::Bump::alloc_str: a copy of `s` placed in the arena.
#[verifier::external_body]
fn arena_alloc_str<'a>(bump: &'a bumpalo::Bump, s: &str) -> (r: &'a str)
    ensures
        r@ == s@,
{
    &*bump.alloc_str(s)
}

/// Relies on bumpalo::collections::Vec::new_in: an empty vector in the arena.
#[verifier::external_body]
fn row_new_in<'a>(bump: &'a bumpalo::Bump) -> (r: bumpalo::collections::Vec<'a, &'a str>)
    ensures
        bump_row(r) == Seq::<Seq<char>>::empty(),
{
    bumpalo::collections::Vec::new_in(bump)
}

/// Relies on bumpalo::collections::Vec::push: appends one string slice.
#[verifier::external_body]
fn row_push<'a>(v: &mut bumpalo::collections::Vec<'a, &'a str>, s: &'a str)
    ensures
        bump_row(*final(v)) == bump_row(*old(v)).push(s@),
{
    v.push(s)
}

/// Relies on bumpalo::collections::Vec::new_in: an empty vector of rows.
#[verifier::external_body]
fn table_new_in<'a>(bump: &'a bumpalo::Bump) -> (r: bumpalo::collections::Vec<
    'a,
    bumpalo::collections::Vec<'a, &'a str>,
>)
    ensures
        bump_table(r) == Seq::<Seq<Seq<char>>>::empty(),
{
    bumpalo::collections::Vec::new_in(bump)
}

/// Relies on bumpalo::collections::Vec::push: appends one row.
#[verifier::external_body]
fn table_push<'a>(
    v: &mut bumpalo::collections::Vec<'a, bumpalo::collections::Vec<'a, &'a str>>,
    row: bumpalo::collections::Vec<'a, &'a str>,
)
    ensures
        bump_table(*final(v)) == bump_table(*old(v)).push(bump_row(row)),
{
    v.push(row)
}

/// Relies on bumpalo::collections::Vec::len: the number of rows held.
#[verifier::external_body]
fn table_len<'a>(v: &bumpalo::collections::Vec<'a, bumpalo::collections::Vec<'a, &'a str>>) -> (r:
    usize)
    ensures
        r == bump_table(*v).len(),
{
    v.len()
}

/// Bytes that a nested workload of string slices occupies in an arena: the
/// slices, the rows and the table.
pub open spec fn arena_bytes(corpus_len: int, iterations: int, fanout: int) -> int {
    vstd::layout::size_of::<&str>() * corpus_len * iterations * fanout
        + vstd::layout::size_of::<bumpalo::collections::Vec<&str>>() * iterations
        + vstd::layout::size_of::<bumpalo::collections::Vec<bumpalo::collections::Vec<&str>>>()
}

/// The arena size chosen up front for a nested workload: the next power of
/// two above `arena_bytes`, or `None` where that does not fit in a `usize`.
pub fn arena_capacity(corpus_len: usize, iterations: usize, fanout: usize) -> (r: Option<usize>)
    ensures
        match r {
            Some(c) => is_next_pow2(arena_bytes(corpus_len as int, iterations as int, fanout as int), c as int),
            None => forall|c: int| #[trigger] is_next_pow2(arena_bytes(corpus_len as int, iterations as int, fanout as int), c) ==> c > usize::MAX,
        },
{
    let slice = core::mem::size_of::<&str>();
    let row = core::mem::size_of::<bumpalo::collections::Vec<&str>>();
    let table = core::mem::size_of::<bumpalo::collections::Vec<bumpalo::collections::Vec<&str>>>();
    let ghost total = arena_bytes(corpus_len as int, iterations as int, fanout as int);
    proof {
        lemma_mul_nonneg(slice as int, corpus_len as int, iterations as int, fanout as int);
        lemma_mul_nonneg(row as int, iterations as int, 1, 1);
    }
    let slices: Option<usize> = if corpus_len == 0 || iterations == 0 || fanout == 0 {
        proof {
            lemma_mul_zero(slice as int, corpus_len as int, iterations as int, fanout as int);
        }
        Some(0)
    } else {
        proof {
            lemma_mul_grows(slice as int, corpus_len as int, iterations as int, fanout as int);
        }
        match slice.checked_mul(corpus_len) {
            Some(a) => match a.checked_mul(iterations) {
                Some(b) => b.checked_mul(fanout),
                None => None,
            },
            None => None,
        }
    };
    let bytes: Option<usize> = match slices {
        Some(c) => match row.checked_mul(iterations) {
            Some(d) => match c.checked_add(d) {
                Some(e) => e.checked_add(table),
                None => None,
            },
            None => None,
        },
        None => None,
    };
    match bytes {
        Some(n) => {
            assert(n == total);
            next_pow2(n)
        },
        None => {
            assert(total > usize::MAX);
            proof {
                assert forall|c: int| #[trigger] is_next_pow2(total, c) implies c > usize::MAX by {
                    let k = choose|k: nat|
                        #[trigger] crate::arena::pow2(k) == c && c >= total && (k == 0
                            || crate::arena::pow2((k - 1) as nat) < total);
                }
            }
            None
        },
    }
}

proof fn lemma_mul_nonneg(a: int, b: int, c: int, d: int)
    requires
        a >= 0,
        b >= 0,
        c >= 0,
        d >= 0,
    ensures
        a * b >= 0,
        a * b * c >= 0,
        a * b * c * d >= 0,
{
    assert(a * b >= 0) by (nonlinear_arith)
        requires
            a >= 0,
            b >= 0,
    ;
    assert(a * b * c >= 0) by (nonlinear_arith)
        requires
            a * b >= 0,
            c >= 0,
    ;
    assert(a * b * c * d >= 0) by (nonlinear_arith)
        requires
            a * b * c >= 0,
            d >= 0,
    ;
}

proof fn lemma_mul_zero(a: int, b: int, c: int, d: int)
    requires
        b == 0 || c == 0 || d == 0,
    ensures
        a * b * c * d == 0,
{
    assert(a * b * c * d == 0) by (nonlinear_arith)
        requires
            b == 0 || c == 0 || d == 0,
    ;
}

/// With every factor after the first at least one, the partial products
/// never exceed the full product.
proof fn lemma_mul_grows(a: int, b: int, c: int, d: int)
    requires
        a >= 0,
        b >= 1,
        c >= 1,
        d >= 1,
    ensures
        a * b <= a * b * c,
        a * b * c <= a * b * c * d,
{
    assert(a * b <= a * b * c) by (nonlinear_arith)
        requires
            a >= 0,
            b >= 1,
            c >= 1,
    ;
    assert(a * b * c <= a * b * c * d) by (nonlinear_arith)
        requires
            a * b * c >= 0,
            d >= 1,
    ;
}

/// Builds the nested workload in `bump`: `iterations` rows of `fanout`
/// arena copies of `corpus`, the rows and the table in the arena too.
pub fn bump_workload<'a>(bump: &'a bumpalo::Bump, corpus: &str, iterations: usize, fanout: usize) -> (r:
    bumpalo::collections::Vec<'a, bumpalo::collections::Vec<'a, &'a str>>)
    ensures
        is_nested_copies(bump_table(r), corpus@, iterations as int, fanout as int),
{
    let mut data = table_new_in(bump);
    let mut i: usize = 0;
    while i < iterations
        invariant
            is_nested_copies(bump_table(data), corpus@, i as int, fanout as int),
            i <= iterations,
        decreases iterations - i,
    {
        let mut row = row_new_in(bump);
        let mut j: usize = 0;
        while j < fanout
            invariant
                j <= fanout,
                bump_row(row).len() == j,
                forall|b: int| 0 <= b < j ==> #[trigger] bump_row(row)[b] == corpus@,
            decreases fanout - j,
        {
            let copy = arena_alloc_str(bump, corpus);
            row_push(&mut row, copy);
            j = j + 1;
        }
        let ghost before = bump_table(data);
        table_push(&mut data, row);
        i = i + 1;
        proof {
            let t = bump_table(data);
            assert forall|a: int| 0 <= a < i implies #[trigger] t[a].len() == fanout by {
                if a < i - 1 {
                    assert(t[a] == before[a]);
                }
            }
            assert forall|a: int, b: int| 0 <= a < i && 0 <= b < fanout implies #[trigger] t[a][b]
                == corpus@ by {
                if a < i - 1 {
                    assert(t[a] == before[a]);
                }
            }
        }
    }
    data
}

/// Builds the nested workload in a fresh bumpalo arena sized up front, and
/// returns how many rows the table holds. Where the size hint does not fit
/// in a `usize`, the arena starts empty and grows as it goes. The arena and
/// everything in it are released together on return.
pub fn bump_count(corpus: &str, iterations: usize, fanout: usize) -> (r: usize)
    ensures
        r == iterations,
{
    let capacity = match arena_capacity(corpus.len(), iterations, fanout) {
        Some(c) => c,
        None => 0,
    };
    let bump = arena_with_capacity(capacity);
    let data = bump_workload(&bump, corpus, iterations, fanout);
    table_len(&data)
}

/// Arena-allocation probe: builds `iterations` rows of five arena copies of
/// `corpus` in one bumpalo arena and returns how many rows were built.
pub fn bump_allocation(corpus: &str, iterations: usize) -> (r: usize)
    ensures
        r == iterations,
{
    bump_count(corpus, iterations, DEFAULT_FANOUT)
}

} // verus!
