use vstd::prelude::*;

verus! {

pub open spec fn pow2(k: nat) -> nat
    decreases k,
{
    if k == 0 {
        1
    } else {
        2 * pow2((k - 1) as nat)
    }
}

/// `c` is the smallest power of two that is at least `n`.
pub open spec fn is_next_pow2(n: int, c: int) -> bool {
    exists|k: nat| #[trigger] pow2(k) == c && c >= n && (k == 0 || pow2((k - 1) as nat) < n)
}

/// The smallest power of two that is at least `n`, or `None` where it does
/// not fit in a `usize`.
pub fn next_pow2(n: usize) -> (r: Option<usize>)
    ensures
        match r {
            Some(c) => is_next_pow2(n as int, c as int),
            None => forall|c: int| #[trigger] is_next_pow2(n as int, c) ==> c > usize::MAX,
        },
{
    let mut p: usize = 1;
    let ghost mut k: nat = 0;
    while p < n
        invariant
            p == pow2(k),
            p >= 1,
            k == 0 || pow2((k - 1) as nat) < n,
        decreases usize::MAX - p,
    {
        if p > usize::MAX / 2 {
            proof {
                assert forall|c: int| #[trigger] is_next_pow2(n as int, c) implies c > usize::MAX by {
                    let j = choose|j: nat| #[trigger] pow2(j) == c && c >= n && (j == 0 || pow2(
                        (j - 1) as nat,
                    ) < n);
                    lemma_pow2_mono(j, k);
                    lemma_pow2_mono(k + 1, j);
                }
            }
            return None;
        }
        p = p * 2;
        proof {
            k = k + 1;
        }
    }
    assert(pow2(k) == p && p >= n && (k == 0 || pow2((k - 1) as nat) < n));
    Some(p)
}

/// Powers of two grow with the exponent.
proof fn lemma_pow2_mono(a: nat, b: nat)
    ensures
        a <= b ==> pow2(a) <= pow2(b),
        a > b ==> pow2(a) >= 2 * pow2(b),
    decreases a + b,
{
    if a > 0 && b > 0 {
        lemma_pow2_mono((a - 1) as nat, (b - 1) as nat);
    } else if a == 0 && b > 0 {
        lemma_pow2_mono(0, (b - 1) as nat);
    } else if a > 0 && b == 0 {
        lemma_pow2_pos((a - 1) as nat);
    }
}

proof fn lemma_pow2_pos(a: nat)
    ensures
        pow2(a) >= 1,
    decreases a,
{
    if a > 0 {
        lemma_pow2_pos((a - 1) as nat);
    }
}

} // verus!
