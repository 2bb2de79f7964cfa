use vstd::prelude::*;
use crate::heap::{is_nested_copies, DEFAULT_FANOUT};

verus! {

// bump_scope's `Bump` and `BumpVec` are bounded by that crate's own allocator
// traits, which cannot stand as bounds in verified code, so its values are
// held in the private fields of the three types below.

/// A bump_scope arena.
#[verifier::external_body]
pub struct ScopedArena {
    bump: bump_scope::Bump,
}

/// One string copied into a bump_scope arena.
#[verifier::external_body]
pub struct ScopedStr<'a> {
    text: bump_scope::BumpBox<'a, str>,
}

/// A vector of arena strings, itself in the arena.
#[verifier::external_body]
pub struct ScopedRow<'a> {
    items: bump_scope::BumpVec<ScopedStr<'a>, &'a bump_scope::Bump>,
}

/// A vector of rows, itself in the arena.
#[verifier::external_body]
pub struct ScopedTable<'a> {
    rows: bump_scope::BumpVec<ScopedRow<'a>, &'a bump_scope::Bump>,
}

/// The characters of an arena string.
pub uninterp spec fn scoped_str(s: ScopedStr) -> Seq<char>;

/// The strings a row holds.
pub uninterp spec fn scoped_row(r: ScopedRow) -> Seq<Seq<char>>;

/// The rows a table holds.
pub uninterp spec fn scoped_table(t: ScopedTable) -> Seq<Seq<Seq<char>>>;

/// Relies on bump_scope::Bump::new: a fresh arena.
#[verifier::external_body]
fn scoped_arena_new() -> (r: ScopedArena) {
    ScopedArena { bump: bump_scope::Bump::new() }
}

/// Relies on bump_scope::Bump::alloc_str: a copy of `s` in the arena.
#[verifier::external_body]
fn scoped_alloc_str<'a>(arena: &'a ScopedArena, s: &str) -> (r: ScopedStr<'a>)
    ensures
        scoped_str(r) == s@,
{
    ScopedStr { text: arena.bump.alloc_str(s) }
}

/// Relies on bump_scope::BumpVec::new_in: an empty vector in the arena.
#[verifier::external_body]
fn scoped_row_new<'a>(arena: &'a ScopedArena) -> (r: ScopedRow<'a>)
    ensures
        scoped_row(r) == Seq::<Seq<char>>::empty(),
{
    ScopedRow { items: bump_scope::BumpVec::new_in(&arena.bump) }
}

/// Relies on bump_scope::BumpVec::push: appends one string.
#[verifier::external_body]
fn scoped_row_push<'a>(row: &mut ScopedRow<'a>, s: ScopedStr<'a>)
    ensures
        scoped_row(*final(row)) == scoped_row(*old(row)).push(scoped_str(s)),
{
    row.items.push(s)
}

/// Relies on bump_scope::BumpVec::new_in: an empty vector of rows.
#[verifier::external_body]
fn scoped_table_new<'a>(arena: &'a ScopedArena) -> (r: ScopedTable<'a>)
    ensures
        scoped_table(r) == Seq::<Seq<Seq<char>>>::empty(),
{
    ScopedTable { rows: bump_scope::BumpVec::new_in(&arena.bump) }
}

/// Relies on bump_scope::BumpVec::push: appends one row.
#[verifier::external_body]
fn scoped_table_push<'a>(table: &mut ScopedTable<'a>, row: ScopedRow<'a>)
    ensures
        scoped_table(*final(table)) == scoped_table(*old(table)).push(scoped_row(row)),
{
    table.rows.push(row)
}

/// Relies on bump_scope::BumpVec::len: the number of rows held.
#[verifier::external_body]
fn scoped_table_len<'a>(table: &ScopedTable<'a>) -> (r: usize)
    ensures
        r == scoped_table(*table).len(),
{
    table.rows.len()
}

/// Builds the nested workload in `arena`: `iterations` rows of `fanout`
/// arena copies of `corpus`, the rows and the table in the arena too.
pub fn scoped_workload<'a>(arena: &'a ScopedArena, corpus: &str, iterations: usize, fanout: usize) -> (r:
    ScopedTable<'a>)
    ensures
        is_nested_copies(scoped_table(r), corpus@, iterations as int, fanout as int),
{
    let mut data = scoped_table_new(arena);
    let mut i: usize = 0;
    while i < iterations
        invariant
            is_nested_copies(scoped_table(data), corpus@, i as int, fanout as int),
            i <= iterations,
        decreases iterations - i,
    {
        let mut row = scoped_row_new(arena);
        let mut j: usize = 0;
        while j < fanout
            invariant
                j <= fanout,
                scoped_row(row).len() == j,
                forall|b: int| 0 <= b < j ==> #[trigger] scoped_row(row)[b] == corpus@,
            decreases fanout - j,
        {
            let copy = scoped_alloc_str(arena, corpus);
            scoped_row_push(&mut row, copy);
            j = j + 1;
        }
        let ghost before = scoped_table(data);
        scoped_table_push(&mut data, row);
        i = i + 1;
        proof {
            let t = scoped_table(data);
            assert forall|a: int| 0 <= a < i implies #[trigger] t[a].len() == fanout by {
                if a < i - 1 {
                    assert(t[a] == before[a]);
                }
            }
            assert forall|a: int, b: int| 0 <= a < i && 0 <= b < fanout implies #[trigger] t[a][b]
                == corpus@ by {
                if a < i - 1 {
                    assert(t[a] == before[a]);
                }
            }
        }
    }
    data
}

/// Builds the nested workload in a fresh bump_scope arena that grows as it
/// goes, and returns how many rows the table holds. The arena and everything
/// in it are released together on return.
pub fn scoped_count(corpus: &str, iterations: usize, fanout: usize) -> (r: usize)
    ensures
        r == iterations,
{
    let arena = scoped_arena_new();
    let data = scoped_workload(&arena, corpus, iterations, fanout);
    scoped_table_len(&data)
}

/// Arena-allocation probe: builds `iterations` rows of five arena copies of
/// `corpus` in one bump_scope arena and returns how many rows were built.
pub fn bump_allocation(corpus: &str, iterations: usize) -> (r: usize)
    ensures
        r == iterations,
{
    scoped_count(corpus, iterations, DEFAULT_FANOUT)
}

} // verus!
