//! Partitioning of a point sequence into contiguous fixed-size batches.

use vstd::prelude::*;

verus! {

/// Number of batches needed for `n` points in batches of `b` (the ceiling of `n / b`).
pub open spec fn batch_total(n: nat, b: nat) -> nat {
    if b == 0 {
        0
    } else {
        ((n + b - 1) as nat) / b
    }
}

/// Offset in the point sequence at which batch `i` (1-based) starts.
pub open spec fn batch_start(b: nat, i: nat) -> nat {
    ((i - 1) * b) as nat
}

/// Number of points in batch `i` (1-based): `b`, or what is left for the last one.
pub open spec fn batch_len(n: nat, b: nat, i: nat) -> nat {
    let s = batch_start(b, i);
    if s >= n {
        0
    } else if n - s < b {
        (n - s) as nat
    } else {
        b
    }
}

/// Sum of the sizes of batches `1..=k`.
pub open spec fn sizes_sum(n: nat, b: nat, k: nat) -> nat
    decreases k,
{
    if k == 0 {
        0
    } else {
        sizes_sum(n, b, (k - 1) as nat) + batch_len(n, b, k)
    }
}

/// The batch count is the least `k` with `k * b >= n`.
pub proof fn lemma_total_bounds(n: nat, b: nat)
    requires
        b > 0,
    ensures
        batch_total(n, b) * b >= n,
        batch_total(n, b) == 0 || (batch_total(n, b) - 1) * b < n,
        n == 0 <==> batch_total(n, b) == 0,
{
    let t = batch_total(n, b);
    let q = (n + b - 1) as nat;
    assert(q == t * b + q % b) by (nonlinear_arith)
        requires
            t == q / b,
            b > 0,
    ;
    assert(q % b < b) by (nonlinear_arith)
        requires
            b > 0,
    ;
    if t > 0 {
        assert((t - 1) * b == t * b - b) by (nonlinear_arith);
    }
    if n == 0 {
        assert(q < b);
        assert(t == 0) by (nonlinear_arith)
            requires
                t == q / b,
                q < b,
                b > 0,
        ;
    } else {
        assert(t >= 1) by (nonlinear_arith)
            requires
                t == q / b,
                q >= b,
                b > 0,
        ;
    }
}

/// Up to the last batch, every batch is full, so the first `k` batches hold `k * b` points.
pub proof fn lemma_sizes_sum_full(n: nat, b: nat, k: nat)
    requires
        b > 0,
        k * b <= n,
    ensures
        sizes_sum(n, b, k) == k * b,
    decreases k,
{
    if k > 0 {
        let j = (k - 1) as nat;
        assert(j * b + b == k * b) by (nonlinear_arith)
            requires
                j == k - 1,
        ;
        assert(batch_start(b, k) == j * b);
        assert(batch_len(n, b, k) == b);
        lemma_sizes_sum_full(n, b, j);
        assert(sizes_sum(n, b, k) == sizes_sum(n, b, j) + batch_len(n, b, k));
    } else {
        assert(k * b == 0) by (nonlinear_arith)
            requires
                k == 0,
        ;
    }
}

/// Batches cover the input exactly: there are `ceil(n / b)` of them, every one
/// is non-empty and holds at most `b` points, their sizes add up to `n`, and the
/// last one holds `n mod b` points, or `b` when `b` divides `n`.
pub proof fn lemma_batches_cover(n: nat, b: nat)
    requires
        b > 0,
    ensures
        batch_total(n, b) == (n + b - 1) / (b as int),
        sizes_sum(n, b, batch_total(n, b)) == n,
        forall|i: nat|
            1 <= i <= batch_total(n, b) ==> 0 < #[trigger] batch_len(n, b, i) <= b,
        n > 0 ==> batch_len(n, b, batch_total(n, b)) == (if n % b == 0 {
            b
        } else {
            n % b
        }),
        n == 0 ==> batch_total(n, b) == 0,
{
    let t = batch_total(n, b);
    lemma_total_bounds(n, b);
    assert forall|i: nat| 1 <= i <= t implies 0 < #[trigger] batch_len(n, b, i) <= b by {
        let j = (i - 1) as nat;
        assert(j * b <= (t - 1) * b) by (nonlinear_arith)
            requires
                j <= t - 1,
                b > 0,
        ;
    }
    if t > 0 {
        let j = (t - 1) as nat;
        assert(j * b + b == t * b) by (nonlinear_arith)
            requires
                j == t - 1,
        ;
        lemma_sizes_sum_full(n, b, j);
        assert(sizes_sum(n, b, t) == sizes_sum(n, b, j) + batch_len(n, b, t));
        let last = n - j * b;
        assert(batch_len(n, b, t) == last);
        assert(n == j * b + last);
        assert(last == if n % b == 0 { b } else { n % b }) by (nonlinear_arith)
            requires
                n == j * b + last,
                0 < last <= b,
        ;
    }
}

/// Exact count of `ceil(n / b)` for machine integers, without overflow.
pub fn batch_count(n: usize, b: usize) -> (r: usize)
    requires
        b > 0,
    ensures
        r == batch_total(n as nat, b as nat),
{
    let q: usize = n / b;
    let m: usize = n % b;
    proof {
        assert(n == q * b + m && m < b) by (nonlinear_arith)
            requires
                q == n / b,
                m == n % b,
                b > 0,
        ;
        let t = batch_total(n as nat, b as nat);
        if m == 0 {
            assert(((n + b - 1) as nat) / (b as nat) == q) by (nonlinear_arith)
                requires
                    n == q * b,
                    b > 0,
            ;
        } else {
            assert(((n + b - 1) as nat) / (b as nat) == q + 1) by (nonlinear_arith)
                requires
                    n == q * b + m,
                    0 < m < b,
            ;
            assert(q + 1 <= n) by (nonlinear_arith)
                requires
                    n == q * b + m,
                    0 < m,
                    b > 0,
            ;
        }
    }
    if m == 0 {
        q
    } else {
        q + 1
    }
}

} // verus!
